//! The mathematical model of the reminder: its state as plain values and
//! each operation as a function from a state to the next one.

use vstd::prelude::*;
use crate::config::ConfigView;
use crate::tray::TrayEvent;

verus! {

/// Nanoseconds in one minute.
pub const NANOS_PER_MINUTE: u128 = 60_000_000_000;

/// Nanoseconds in one second.
pub const NANOS_PER_SECOND: u128 = 1_000_000_000;

/// What the countdown is doing.
#[derive(Clone, Copy, Debug, PartialEq, Eq, Structural)]
pub enum AppState {
    Working,
    Resting,
    Paused,
}

/// Pending requests to the window and the process. Each is set by whoever
/// wants the action and cleared once the action has been handed out.
#[derive(Clone, Copy, Debug, PartialEq, Eq, Structural)]
pub struct IntentFlags {
    /// Bring the window back from the tray.
    pub show: bool,
    /// Hide the window to the tray.
    pub hide: bool,
    /// Minimize the window.
    pub minimize: bool,
    /// End the process.
    pub quit: bool,
    /// Whether the window should cover the screen.
    pub fullscreen_target: bool,
    /// The fullscreen value last handed to the window.
    pub fullscreen_applied: bool,
}

/// The reminder as plain values.
pub struct ReminderView {
    pub state: AppState,
    /// Time left in the current phase.
    pub remaining: nat,
    /// When the running phase was started or last measured.
    pub anchor: Option<nat>,
    pub config: ConfigView,
    pub flags: IntentFlags,
    /// Whether the program is registered to start with the session.
    pub auto_start: bool,
}

/// How long to wait before the next redraw, in milliseconds: resting is
/// animated, working needs the countdown only, and while paused the tray is
/// still listened to.
pub open spec fn refresh_millis(state: AppState) -> u64 {
    match state {
        AppState::Resting => 16,
        AppState::Working => 100,
        AppState::Paused => 50,
    }
}

/// The length of a phase of `minutes` minutes.
pub open spec fn phase_nanos(minutes: nat) -> nat {
    minutes * 60_000_000_000
}

/// The time between `anchor` and `now`; zero where the clock reads earlier
/// than the anchor.
pub open spec fn elapsed_since(anchor: nat, now: nat) -> nat {
    if now >= anchor {
        (now - anchor) as nat
    } else {
        0
    }
}

/// What is left of `remaining` once `elapsed` has passed, floored at zero.
pub open spec fn remaining_after(remaining: int, elapsed: int) -> int {
    if elapsed < remaining {
        remaining - elapsed
    } else {
        0
    }
}

impl ReminderView {
    /// Both durations are positive, and an anchor is held exactly while a
    /// phase is running.
    pub open spec fn wf(self) -> bool {
        &&& self.config.wf()
        &&& (self.anchor is Some <==> self.state != AppState::Paused)
    }

    /// The state a reminder starts in: paused, with a full working phase left
    /// and no intent pending.
    pub open spec fn initial(config: ConfigView, auto_start: bool) -> ReminderView {
        ReminderView {
            state: AppState::Paused,
            remaining: phase_nanos(config.work_minutes),
            anchor: None,
            config,
            flags: IntentFlags {
                show: false,
                hide: false,
                minimize: false,
                quit: false,
                fullscreen_target: false,
                fullscreen_applied: false,
            },
            auto_start,
        }
    }

    /// A full working phase begins at `now`; the overlay is no longer wanted.
    pub open spec fn start_work(self, now: nat) -> ReminderView {
        ReminderView {
            state: AppState::Working,
            remaining: phase_nanos(self.config.work_minutes),
            anchor: Some(now),
            flags: IntentFlags { fullscreen_target: false, ..self.flags },
            ..self
        }
    }

    /// A full resting phase begins at `now`; the overlay is wanted and the
    /// window must not be hidden.
    pub open spec fn start_rest(self, now: nat) -> ReminderView {
        ReminderView {
            state: AppState::Resting,
            remaining: phase_nanos(self.config.rest_minutes),
            anchor: Some(now),
            flags: IntentFlags { fullscreen_target: true, hide: false, ..self.flags },
            ..self
        }
    }

    /// The time run since the anchor, as of `now`; zero while paused.
    pub open spec fn elapsed(self, now: nat) -> nat {
        match self.anchor {
            Some(anchor) => elapsed_since(anchor, now),
            None => 0,
        }
    }

    /// The countdown stops at `now`, keeping what time is left.
    pub open spec fn pause(self, now: nat) -> ReminderView {
        ReminderView {
            state: AppState::Paused,
            remaining: remaining_after(self.remaining as int, self.elapsed(now) as int) as nat,
            anchor: None,
            flags: IntentFlags { fullscreen_target: false, ..self.flags },
            ..self
        }
    }

    /// The resting phase is over: the window is to be minimized, the
    /// countdown stops, and a full working phase is left to start.
    pub open spec fn end_rest(self) -> ReminderView {
        ReminderView {
            state: AppState::Paused,
            remaining: phase_nanos(self.config.work_minutes),
            anchor: None,
            flags: IntentFlags { minimize: true, fullscreen_target: false, ..self.flags },
            ..self
        }
    }

    /// Whether a phase is running and has used up its time as of `now`.
    pub open spec fn expired(self, now: nat) -> bool {
        self.anchor is Some && self.elapsed(now) >= self.remaining
    }

    /// The passing of time up to `now`. Nothing happens while paused. A
    /// working phase that has expired gives way to rest, a resting phase that
    /// has expired ends; otherwise the elapsed time is taken off and the
    /// anchor moves to `now`.
    ///
    /// A phase that expired long ago is treated like one that expired just
    /// now: the next phase begins in full at `now`, so a long sleep of the
    /// machine passes one phase boundary and no more.
    pub open spec fn tick(self, now: nat) -> ReminderView {
        if self.anchor is None {
            self
        } else if self.expired(now) {
            match self.state {
                AppState::Working => self.start_rest(now),
                AppState::Resting => self.end_rest(),
                AppState::Paused => self,
            }
        } else {
            ReminderView {
                remaining: (self.remaining - self.elapsed(now)) as nat,
                anchor: Some(now),
                ..self
            }
        }
    }

    /// One event from the tray raises the intent it stands for.
    pub open spec fn apply_event(self, event: TrayEvent) -> ReminderView {
        match event {
            TrayEvent::ShowWindow => ReminderView {
                flags: IntentFlags { show: true, ..self.flags },
                ..self
            },
            TrayEvent::Quit => ReminderView {
                flags: IntentFlags { quit: true, ..self.flags },
                ..self
            },
        }
    }

    /// The same reminder with another configuration. What is left of the
    /// current phase stays as it is: the new durations count from the next
    /// phase on.
    pub open spec fn with_config(self, config: ConfigView) -> ReminderView {
        ReminderView { config, ..self }
    }

    /// The reminder after an attempt to register or unregister the program
    /// for starting with the session: the wanted value where the attempt
    /// succeeded, the value from before where it failed.
    pub open spec fn record_auto_start(self, wanted: bool, succeeded: bool) -> ReminderView {
        if succeeded {
            ReminderView { auto_start: wanted, ..self }
        } else {
            self
        }
    }

    /// The window is to be hidden to the tray.
    pub open spec fn request_hide(self) -> ReminderView {
        ReminderView { flags: IntentFlags { hide: true, ..self.flags }, ..self }
    }

    /// All of `events` raise their intents. The order does not matter: an
    /// intent is raised if any event asks for it.
    pub open spec fn apply_events(self, events: Seq<TrayEvent>) -> ReminderView {
        ReminderView {
            flags: IntentFlags {
                show: self.flags.show || events.contains(TrayEvent::ShowWindow),
                quit: self.flags.quit || events.contains(TrayEvent::Quit),
                ..self.flags
            },
            ..self
        }
    }
}

} // verus!
