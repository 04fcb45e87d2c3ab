//! One redraw cycle: which window commands the pending intents turn into, and
//! in what order.

use vstd::prelude::*;
use crate::model::{IntentFlags, ReminderView};
use crate::tray::TrayEvent;

verus! {

/// How often focus is asked for when the window comes back from the tray.
pub const FOCUS_ATTEMPTS: usize = 3;

/// The pause after bringing the window back and after each request for
/// focus, in milliseconds.
pub const FOCUS_DELAY_MILLIS: u64 = 100;

/// One thing to do to the window or the process. Whoever runs the cycle
/// carries the commands out in the order given.
#[derive(Clone, Copy, Debug, PartialEq, Eq, Structural)]
pub enum WindowCommand {
    /// End the process at once; nothing else is done in this cycle.
    Exit,
    /// Refuse the close that the window was asked for.
    CancelClose,
    SetVisible(bool),
    SetMinimized(bool),
    SetFullscreen(bool),
    RequestFocus,
    /// Let the given number of milliseconds pass.
    Wait(u64),
}

/// `attempts` requests for focus, each followed by a pause.
pub open spec fn focus_retries(attempts: nat) -> Seq<WindowCommand> {
    Seq::new(
        2 * attempts,
        |i: int|
            if i % 2 == 0 {
                WindowCommand::RequestFocus
            } else {
                WindowCommand::Wait(FOCUS_DELAY_MILLIS)
            },
    )
}

/// What a pending hide turns into.
pub open spec fn hide_commands(flags: IntentFlags) -> Seq<WindowCommand> {
    if flags.hide {
        seq![WindowCommand::SetVisible(false)]
    } else {
        Seq::empty()
    }
}

/// What a pending show turns into: the window is restored and made visible,
/// then focus is asked for a fixed number of times.
pub open spec fn show_commands(flags: IntentFlags) -> Seq<WindowCommand> {
    if flags.show {
        seq![
            WindowCommand::SetMinimized(false),
            WindowCommand::SetVisible(true),
            WindowCommand::Wait(FOCUS_DELAY_MILLIS),
        ] + focus_retries(FOCUS_ATTEMPTS as nat)
    } else {
        Seq::empty()
    }
}

/// What a pending minimize turns into.
pub open spec fn minimize_commands(flags: IntentFlags) -> Seq<WindowCommand> {
    if flags.minimize {
        seq![WindowCommand::SetMinimized(true)]
    } else {
        Seq::empty()
    }
}

/// What a change of the fullscreen target turns into; entering fullscreen
/// also asks for focus.
pub open spec fn fullscreen_commands(flags: IntentFlags) -> Seq<WindowCommand> {
    if flags.fullscreen_target == flags.fullscreen_applied {
        Seq::empty()
    } else if flags.fullscreen_target {
        seq![WindowCommand::SetFullscreen(true), WindowCommand::RequestFocus]
    } else {
        seq![WindowCommand::SetFullscreen(false)]
    }
}

/// The commands for all pending window intents: hide, show, minimize,
/// fullscreen, in that order.
pub open spec fn window_commands(flags: IntentFlags) -> Seq<WindowCommand> {
    hide_commands(flags) + show_commands(flags) + minimize_commands(flags) + fullscreen_commands(
        flags,
    )
}

/// The flags once the window intents have been handed out: hide, show and
/// minimize are cleared and the fullscreen target counts as applied.
pub open spec fn settled(flags: IntentFlags) -> IntentFlags {
    IntentFlags {
        show: false,
        hide: false,
        minimize: false,
        fullscreen_applied: flags.fullscreen_target,
        ..flags
    }
}

impl ReminderView {
    /// Whether a close of the window is turned into a hide in this cycle: it
    /// is, unless nothing asked to close or a quit is pending once the tray
    /// events are in.
    pub open spec fn intercepts_close(
        self,
        events: Seq<TrayEvent>,
        close_requested: bool,
    ) -> bool {
        close_requested && !self.apply_events(events).flags.quit
    }

    /// The state of a cycle just before the window intents are handed out:
    /// the tray events are in, a close has become a hide, and time has passed
    /// up to `now`.
    pub open spec fn advance(
        self,
        now: nat,
        events: Seq<TrayEvent>,
        close_requested: bool,
    ) -> ReminderView {
        let drained = self.apply_events(events);
        if self.intercepts_close(events, close_requested) {
            drained.request_hide().tick(now)
        } else {
            drained.tick(now)
        }
    }

    /// The state after one cycle. With a quit pending nothing changes.
    pub open spec fn update(
        self,
        now: nat,
        events: Seq<TrayEvent>,
        close_requested: bool,
    ) -> ReminderView {
        if self.flags.quit {
            self
        } else {
            let advanced = self.advance(now, events, close_requested);
            ReminderView { flags: settled(advanced.flags), ..advanced }
        }
    }

    /// The commands of one cycle. With a quit pending the process ends and
    /// that is all; otherwise a close is refused where it became a hide, and
    /// the window intents follow.
    pub open spec fn update_commands(
        self,
        now: nat,
        events: Seq<TrayEvent>,
        close_requested: bool,
    ) -> Seq<WindowCommand> {
        if self.flags.quit {
            seq![WindowCommand::Exit]
        } else {
            let refusal = if self.intercepts_close(events, close_requested) {
                seq![WindowCommand::CancelClose]
            } else {
                Seq::empty()
            };
            refusal + window_commands(self.advance(now, events, close_requested).flags)
        }
    }
}

/// Appends `attempts` requests for focus, each followed by a pause.
pub fn push_focus_retries(commands: &mut Vec<WindowCommand>, attempts: usize)
    ensures
        final(commands)@ == old(commands)@ + focus_retries(attempts as nat),
{
    let ghost before = commands@;
    let mut done: usize = 0;
    while done < attempts
        invariant
            done <= attempts,
            commands@ == before + focus_retries(done as nat),
        decreases attempts - done,
    {
        commands.push(WindowCommand::RequestFocus);
        commands.push(WindowCommand::Wait(FOCUS_DELAY_MILLIS));
        done = done + 1;
    }
}

/// The commands for the pending window intents in `flags`.
pub fn plan_window_commands(flags: IntentFlags) -> (commands: Vec<WindowCommand>)
    ensures
        commands@ == window_commands(flags),
{
    let mut commands: Vec<WindowCommand> = Vec::new();
    if flags.hide {
        commands.push(WindowCommand::SetVisible(false));
    }
    if flags.show {
        commands.push(WindowCommand::SetMinimized(false));
        commands.push(WindowCommand::SetVisible(true));
        commands.push(WindowCommand::Wait(FOCUS_DELAY_MILLIS));
        push_focus_retries(&mut commands, FOCUS_ATTEMPTS);
    }
    if flags.minimize {
        commands.push(WindowCommand::SetMinimized(true));
    }
    if flags.fullscreen_target != flags.fullscreen_applied {
        commands.push(WindowCommand::SetFullscreen(flags.fullscreen_target));
        if flags.fullscreen_target {
            commands.push(WindowCommand::RequestFocus);
        }
    }
    commands
}

} // verus!
