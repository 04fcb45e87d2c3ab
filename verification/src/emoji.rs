//! The pictures that drift over the resting overlay.

use vstd::prelude::*;

verus! {

/// The number of pictures to choose from.
pub const EMOJI_COUNT: usize = 13;

/// The picture at position `index` of the list.
pub open spec fn emoji(index: int) -> Seq<char> {
    if index == 0 {
        "\u{1F600}"@
    } else if index == 1 {
        "\u{1F602}"@
    } else if index == 2 {
        "\u{1F60E}"@
    } else if index == 3 {
        "\u{1F929}"@
    } else if index == 4 {
        "\u{1F62D}"@
    } else if index == 5 {
        "\u{1F525}"@
    } else if index == 6 {
        "\u{1F353}"@
    } else if index == 7 {
        "\u{1F349}"@
    } else if index == 8 {
        "\u{1F48E}"@
    } else if index == 9 {
        "\u{2728}"@
    } else if index == 10 {
        "\u{1F389}"@
    } else if index == 11 {
        "\u{2764}\u{FE0F}"@
    } else {
        "\u{1F680}"@
    }
}

/// `fastrand::usize` with the range `..bound`: a number below `bound`, drawn
/// from the thread's generator. The function panics on an empty range, hence
/// the condition on `bound`. Nothing is claimed of which number comes.
#[verifier::external_body]
fn random_below(bound: usize) -> (index: usize)
    requires
        bound > 0,
    ensures
        index < bound,
{
    fastrand::usize(..bound)
}

/// The picture at position `index` of the list.
pub fn emoji_at(index: usize) -> (picture: &'static str)
    requires
        index < EMOJI_COUNT,
    ensures
        picture@ == emoji(index as int),
{
    if index == 0 {
        "\u{1F600}"
    } else if index == 1 {
        "\u{1F602}"
    } else if index == 2 {
        "\u{1F60E}"
    } else if index == 3 {
        "\u{1F929}"
    } else if index == 4 {
        "\u{1F62D}"
    } else if index == 5 {
        "\u{1F525}"
    } else if index == 6 {
        "\u{1F353}"
    } else if index == 7 {
        "\u{1F349}"
    } else if index == 8 {
        "\u{1F48E}"
    } else if index == 9 {
        "\u{2728}"
    } else if index == 10 {
        "\u{1F389}"
    } else if index == 11 {
        "\u{2764}\u{FE0F}"
    } else {
        "\u{1F680}"
    }
}

/// A position in the list, chosen at random.
pub fn random_emoji_index() -> (index: usize)
    ensures
        index < EMOJI_COUNT,
{
    random_below(EMOJI_COUNT)
}

/// One picture of the list, chosen at random.
pub fn random_emoji() -> (picture: &'static str)
    ensures
        exists|index: int| 0 <= index < EMOJI_COUNT && picture@ == #[trigger] emoji(index),
{
    emoji_at(random_emoji_index())
}

} // verus!
