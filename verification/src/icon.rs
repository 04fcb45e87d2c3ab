//! The picture shown in the tray: a filled disc on a clear ground.

use vstd::prelude::*;

verus! {

/// The width and the height of the icon, in pixels.
pub const ICON_SIZE: u32 = 64;

/// The number of bytes in the icon: four for each pixel.
pub const ICON_BYTES: usize = 16384;

/// Whether the pixel in column `x` and row `y` lies on the disc, which has
/// its centre at (32, 32) and a radius of 25.
pub open spec fn on_disc(x: int, y: int) -> bool {
    (x - 32) * (x - 32) + (y - 32) * (y - 32) <= 625
}

/// The byte at position `i` of the icon. Pixels follow each other row by
/// row, each as red, green, blue and opacity. A pixel on the disc is an
/// opaque tomato red, any other is clear.
pub open spec fn icon_byte(i: int) -> u8 {
    let pixel = i / 4;
    if on_disc(pixel % 64, pixel / 64) {
        if i % 4 == 0 {
            255
        } else if i % 4 == 1 {
            99
        } else if i % 4 == 2 {
            71
        } else {
            255
        }
    } else {
        0
    }
}

/// The whole icon.
pub open spec fn icon_pixels() -> Seq<u8> {
    Seq::new(ICON_BYTES as nat, |i: int| icon_byte(i))
}

/// Whether the pixel in column `x` and row `y` lies on the disc.
fn pixel_on_disc(x: u32, y: u32) -> (on: bool)
    requires
        x < 64,
        y < 64,
    ensures
        on == on_disc(x as int, y as int),
{
    let dx: i64 = x as i64 - 32;
    let dy: i64 = y as i64 - 32;
    assert(0 <= dx * dx <= 1024) by (nonlinear_arith)
        requires
            -32 <= dx <= 32,
    ;
    assert(0 <= dy * dy <= 1024) by (nonlinear_arith)
        requires
            -32 <= dy <= 32,
    ;
    dx * dx + dy * dy <= 625
}

/// Draws the icon.
pub fn icon_rgba() -> (bytes: Vec<u8>)
    ensures
        bytes@ == icon_pixels(),
{
    let mut bytes: Vec<u8> = Vec::new();
    let mut y: u32 = 0;
    while y < 64
        invariant
            y <= 64,
            bytes@ == Seq::new((256 * y) as nat, |i: int| icon_byte(i)),
        decreases 64 - y,
    {
        let mut x: u32 = 0;
        while x < 64
            invariant
                y < 64,
                x <= 64,
                bytes@ == Seq::new((256 * y + 4 * x) as nat, |i: int| icon_byte(i)),
            decreases 64 - x,
        {
            let on = pixel_on_disc(x, y);
            if on {
                bytes.push(255);
                bytes.push(99);
                bytes.push(71);
                bytes.push(255);
            } else {
                bytes.push(0);
                bytes.push(0);
                bytes.push(0);
                bytes.push(0);
            }
            x = x + 1;
        }
        y = y + 1;
    }
    bytes
}

} // verus!
