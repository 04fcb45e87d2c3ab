//! What holds of the reminder in every state, proved of the model in which
//! the contracts of its operations are stated.

use vstd::prelude::*;
use vstd::seq_lib::{lemma_seq_contains_after_push, lemma_seq_empty_contains_nothing};
use crate::config::ConfigView;
use crate::dispatch::{window_commands, WindowCommand};
use crate::input::{all_digits, digits_value, minutes_in, unsigned_part};
use crate::model::{
    elapsed_since, phase_nanos, remaining_after, AppState, IntentFlags, ReminderView,
};
use crate::tray::TrayEvent;

verus! {

/// A reminder is well formed when it is made, and every operation keeps it
/// so: the durations stay positive, and an anchor is held exactly while a
/// phase runs.
pub proof fn operations_keep_well_formed(
    v: ReminderView,
    config: ConfigView,
    now: nat,
    events: Seq<TrayEvent>,
    close_requested: bool,
)
    requires
        v.wf(),
        config.wf(),
    ensures
        ReminderView::initial(config, v.auto_start).wf(),
        v.start_work(now).wf(),
        v.start_rest(now).wf(),
        v.pause(now).wf(),
        v.end_rest().wf(),
        v.tick(now).wf(),
        v.request_hide().wf(),
        v.apply_events(events).wf(),
        v.with_config(config).wf(),
        v.update(now, events, close_requested).wf(),
{
}

/// However much time has run, pausing leaves a time that is not negative and
/// not more than was left before.
pub proof fn pause_never_goes_below_zero(remaining: int, elapsed: int)
    requires
        remaining >= 0,
    ensures
        remaining_after(remaining, elapsed) >= 0,
        elapsed >= 0 ==> remaining_after(remaining, elapsed) <= remaining,
        elapsed >= remaining ==> remaining_after(remaining, elapsed) == 0,
{
}

/// Pausing takes the time run since the anchor off the remaining time,
/// floored at zero, and leaves the reminder paused without an anchor and
/// without the overlay. A reminder that is paused already keeps its time.
pub proof fn pause_keeps_what_is_left(v: ReminderView, now: nat)
    ensures
        v.pause(now).remaining == remaining_after(v.remaining as int, v.elapsed(now) as int),
        v.pause(now).remaining <= v.remaining,
        v.pause(now).state == AppState::Paused,
        v.pause(now).anchor is None,
        !v.pause(now).flags.fullscreen_target,
        v.anchor is None ==> v.pause(now).remaining == v.remaining,
{
}

/// A working phase that has used up its time gives way, at the next tick, to
/// a full resting phase with the overlay asked for.
pub proof fn expired_work_starts_rest(v: ReminderView, now: nat)
    requires
        v.state == AppState::Working,
        v.expired(now),
    ensures
        v.tick(now).state == AppState::Resting,
        v.tick(now).remaining == phase_nanos(v.config.rest_minutes),
        v.tick(now).anchor == Some(now),
        v.tick(now).flags.fullscreen_target,
{
}

/// A resting phase that has used up its time ends at the next tick: the
/// reminder is paused with a full working phase left, minimizing is asked
/// for and the overlay is not.
pub proof fn expired_rest_pauses(v: ReminderView, now: nat)
    requires
        v.state == AppState::Resting,
        v.expired(now),
    ensures
        v.tick(now).state == AppState::Paused,
        v.tick(now).remaining == phase_nanos(v.config.work_minutes),
        v.tick(now).anchor is None,
        v.tick(now).flags.minimize,
        !v.tick(now).flags.fullscreen_target,
{
}

/// Ending the rest is the same as asking for the window to be minimized,
/// pausing, and then putting a full working phase back on the countdown.
pub proof fn end_rest_is_minimize_pause_reset(v: ReminderView, now: nat)
    ensures
        v.end_rest() == (ReminderView {
            remaining: phase_nanos(v.config.work_minutes),
            ..(ReminderView {
                flags: IntentFlags { minimize: true, ..v.flags },
                ..v
            }).pause(now)
        }),
{
}

/// Pausing after a start of work leaves the working phase less the time
/// between the two, so it is short of a full phase by no more than that
/// time; pausing at the very reading of the start leaves the full phase.
pub proof fn pause_after_start_work(v: ReminderView, start: nat, stop: nat)
    ensures
        v.start_work(start).pause(stop).remaining == remaining_after(
            phase_nanos(v.config.work_minutes) as int,
            elapsed_since(start, stop) as int,
        ),
        v.start_work(start).pause(stop).remaining <= phase_nanos(v.config.work_minutes),
        phase_nanos(v.config.work_minutes) - v.start_work(start).pause(stop).remaining
            <= elapsed_since(start, stop),
        stop <= start ==> v.start_work(start).pause(stop).remaining == phase_nanos(
            v.config.work_minutes,
        ),
{
}

/// While a phase runs and has time left, a tick takes off exactly the time
/// run since the anchor and changes nothing else but the anchor.
pub proof fn tick_counts_down(v: ReminderView, now: nat)
    requires
        v.anchor is Some,
        !v.expired(now),
    ensures
        v.tick(now).remaining + v.elapsed(now) == v.remaining,
        v.tick(now).anchor == Some(now),
        v.tick(now).state == v.state,
        v.tick(now).flags == v.flags,
        v.tick(now).config == v.config,
{
}

/// A paused reminder does not feel time pass.
pub proof fn tick_leaves_paused_alone(v: ReminderView, now: nat)
    requires
        v.anchor is None,
    ensures
        v.tick(now) == v,
{
}

/// How often the clock is looked at does not matter: a tick in between,
/// taken while the phase still had time left, changes nothing about where a
/// later tick arrives.
pub proof fn ticks_compose(v: ReminderView, earlier: nat, later: nat)
    requires
        v.wf(),
        v.anchor is Some,
        v.anchor->0 <= earlier <= later,
        !v.expired(earlier),
    ensures
        v.tick(earlier).tick(later) == v.tick(later),
{
}

/// Text that writes zero, and text whose digits are not all digits, give no
/// number of minutes.
pub proof fn zero_and_non_numbers_give_no_minutes(text: Seq<char>)
    requires
        digits_value(unsigned_part(text)) == 0 || !all_digits(unsigned_part(text)),
    ensures
        minutes_in(text) is None,
{
}

/// Typing in text that gives no number of minutes changes neither stored
/// duration, and whatever is typed in, the durations stay positive.
pub proof fn rejected_input_keeps_config(config: ConfigView, text: Seq<char>)
    ensures
        minutes_in(text) is None ==> config.with_work_input(text) == config,
        minutes_in(text) is None ==> config.with_rest_input(text) == config,
        minutes_in(text) matches Some(minutes) ==> config.with_work_input(text) == (ConfigView {
            work_minutes: minutes as nat,
            ..config
        }),
        minutes_in(text) matches Some(minutes) ==> config.with_rest_input(text) == (ConfigView {
            rest_minutes: minutes as nat,
            ..config
        }),
        config.wf() ==> config.with_work_input(text).wf() && config.with_rest_input(text).wf(),
{
}

/// A quit that is pending when a cycle begins wins over everything else:
/// the process ends, no other command is given, whatever else is pending,
/// and nothing changes.
pub proof fn quit_takes_priority(
    v: ReminderView,
    now: nat,
    events: Seq<TrayEvent>,
    close_requested: bool,
)
    requires
        v.flags.quit,
    ensures
        v.update_commands(now, events, close_requested) == seq![WindowCommand::Exit],
        v.update(now, events, close_requested) == v,
{
}

/// The process is ended only by a quit that was pending when the cycle
/// began.
pub proof fn exit_needs_pending_quit(
    v: ReminderView,
    now: nat,
    events: Seq<TrayEvent>,
    close_requested: bool,
)
    requires
        !v.flags.quit,
    ensures
        !v.update_commands(now, events, close_requested).contains(WindowCommand::Exit),
{
    lemma_window_commands_have_no_exit(v.advance(now, events, close_requested).flags);
}

/// None of the commands for the window intents ends the process.
proof fn lemma_window_commands_have_no_exit(flags: IntentFlags)
    ensures
        forall|i: int|
            0 <= i < window_commands(flags).len()
                ==> #[trigger] window_commands(flags)[i] != WindowCommand::Exit,
{
}

/// A cycle that does not end the process hands every window intent out and
/// clears it: nothing is left to hide, show or minimize, and the fullscreen
/// target counts as applied. A quit that came in with the tray events stays
/// pending for the next cycle.
pub proof fn update_clears_what_it_hands_out(
    v: ReminderView,
    now: nat,
    events: Seq<TrayEvent>,
    close_requested: bool,
)
    requires
        !v.flags.quit,
    ensures
        !v.update(now, events, close_requested).flags.hide,
        !v.update(now, events, close_requested).flags.show,
        !v.update(now, events, close_requested).flags.minimize,
        v.update(now, events, close_requested).flags.fullscreen_applied == v.update(
            now,
            events,
            close_requested,
        ).flags.fullscreen_target,
        v.update(now, events, close_requested).flags.quit == events.contains(TrayEvent::Quit),
        window_commands(v.update(now, events, close_requested).flags)
            == Seq::<WindowCommand>::empty(),
{
}

/// Taking tray events in one by one, in the order they came, raises the
/// same intents as taking them in together.
pub proof fn events_apply_in_order(v: ReminderView, events: Seq<TrayEvent>, last: TrayEvent)
    ensures
        v.apply_events(Seq::empty()) == v,
        v.apply_events(events.push(last)) == v.apply_events(events).apply_event(last),
{
    lemma_seq_empty_contains_nothing(TrayEvent::ShowWindow);
    lemma_seq_empty_contains_nothing(TrayEvent::Quit);
    lemma_seq_contains_after_push(events, last, TrayEvent::ShowWindow);
    lemma_seq_contains_after_push(events, last, TrayEvent::Quit);
}

/// A tray event that comes twice does no more than one that comes once.
pub proof fn repeated_events_are_harmless(v: ReminderView, event: TrayEvent, events: Seq<TrayEvent>)
    ensures
        v.apply_event(event).apply_event(event) == v.apply_event(event),
        v.apply_events(events).apply_events(events) == v.apply_events(events),
{
}

} // verus!
