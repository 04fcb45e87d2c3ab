//! The reminder itself: the countdown, its configuration and its intents.

use vstd::prelude::*;
use vstd::seq_lib::lemma_seq_contains_after_push;
use crate::config::AppConfig;
use crate::input::minutes_in;
use crate::display::{clock_text, format_clock};
use crate::model::{
    phase_nanos, refresh_millis, AppState, IntentFlags, ReminderView, NANOS_PER_MINUTE,
};
use crate::dispatch::{plan_window_commands, WindowCommand};
use crate::tray::{message_event, TrayEvent, TrayMessage};

verus! {

/// A break reminder. It starts paused and changes only through its methods,
/// each of which takes the current clock reading where it needs one.
///
/// Time is counted in nanoseconds. A clock reading is a number of
/// nanoseconds since an origin of the caller's choosing; readings are meant
/// not to decrease, and one that does counts as no time having passed.
#[derive(Debug)]
pub struct Reminder {
    state: AppState,
    config: AppConfig,
    anchor: Option<u128>,
    remaining: u128,
    flags: IntentFlags,
    auto_start: bool,
}

impl View for Reminder {
    type V = ReminderView;

    closed spec fn view(&self) -> ReminderView {
        ReminderView {
            state: self.state,
            remaining: self.remaining as nat,
            anchor: match self.anchor {
                Some(anchor) => Some(anchor as nat),
                None => None,
            },
            config: self.config@,
            flags: self.flags,
            auto_start: self.auto_start,
        }
    }
}

/// The length in nanoseconds of a phase of `minutes` minutes.
fn phase_length(minutes: u64) -> (nanos: u128)
    ensures
        nanos == phase_nanos(minutes as nat),
{
    (minutes as u128) * NANOS_PER_MINUTE
}

impl Reminder {
    /// Holds of every reminder there is.
    #[verifier::type_invariant]
    pub open spec fn inv(self) -> bool {
        self@.wf()
    }

    /// A paused reminder with a full working phase left.
    pub fn new(config: AppConfig, auto_start: bool) -> (reminder: Reminder)
        ensures
            reminder@ == ReminderView::initial(config@, auto_start),
    {
        proof {
            use_type_invariant(&config);
        }
        let work = config.work_minutes();
        Reminder {
            state: AppState::Paused,
            remaining: phase_length(work),
            anchor: None,
            config,
            flags: IntentFlags {
                show: false,
                hide: false,
                minimize: false,
                quit: false,
                fullscreen_target: false,
                fullscreen_applied: false,
            },
            auto_start,
        }
    }

    /// Begins a full working phase at `now`.
    pub fn start_work(&mut self, now: u128)
        ensures
            final(self)@ == old(self)@.start_work(now as nat),
    {
        proof {
            use_type_invariant(&*self);
        }
        *self = Reminder {
            state: AppState::Working,
            remaining: phase_length(self.config.work_minutes()),
            anchor: Some(now),
            flags: IntentFlags { fullscreen_target: false, ..self.flags },
            ..*self
        };
    }

    /// Begins a full resting phase at `now`.
    pub fn start_rest(&mut self, now: u128)
        ensures
            final(self)@ == old(self)@.start_rest(now as nat),
    {
        proof {
            use_type_invariant(&*self);
        }
        *self = Reminder {
            state: AppState::Resting,
            remaining: phase_length(self.config.rest_minutes()),
            anchor: Some(now),
            flags: IntentFlags { fullscreen_target: true, hide: false, ..self.flags },
            ..*self
        };
    }

    /// The time run since the anchor, as of `now`; zero while paused or where
    /// `now` reads earlier than the anchor.
    pub fn elapsed(&self, now: u128) -> (elapsed: u128)
        ensures
            elapsed == self@.elapsed(now as nat),
    {
        match self.anchor {
            Some(anchor) => if now >= anchor {
                now - anchor
            } else {
                0
            },
            None => 0,
        }
    }

    /// Stops the countdown at `now`. The time run since the anchor is taken
    /// off what was left; where more has run than was left, nothing is left.
    pub fn pause(&mut self, now: u128)
        ensures
            final(self)@ == old(self)@.pause(now as nat),
    {
        proof {
            use_type_invariant(&*self);
        }
        let elapsed = self.elapsed(now);
        let left = if elapsed < self.remaining {
            self.remaining - elapsed
        } else {
            0
        };
        *self = Reminder {
            state: AppState::Paused,
            remaining: left,
            anchor: None,
            flags: IntentFlags { fullscreen_target: false, ..self.flags },
            ..*self
        };
    }

    /// Ends the resting phase before or at its expiry: asks for the window to
    /// be minimized and leaves a paused reminder with a full working phase.
    pub fn skip_rest(&mut self)
        ensures
            final(self)@ == old(self)@.end_rest(),
    {
        proof {
            use_type_invariant(&*self);
        }
        *self = Reminder {
            state: AppState::Paused,
            remaining: phase_length(self.config.work_minutes()),
            anchor: None,
            flags: IntentFlags { minimize: true, fullscreen_target: false, ..self.flags },
            ..*self
        };
    }

    /// Lets time pass up to `now`.
    pub fn tick(&mut self, now: u128)
        ensures
            final(self)@ == old(self)@.tick(now as nat),
    {
        proof {
            use_type_invariant(&*self);
        }
        if self.anchor.is_none() {
            return ;
        }
        let elapsed = self.elapsed(now);
        if elapsed >= self.remaining {
            match self.state {
                AppState::Working => self.start_rest(now),
                AppState::Resting => self.skip_rest(),
                AppState::Paused => {},
            }
        } else {
            *self = Reminder { remaining: self.remaining - elapsed, anchor: Some(now), ..*self };
        }
    }

    /// Raises the intent that `event` stands for.
    pub fn apply_event(&mut self, event: TrayEvent)
        ensures
            final(self)@ == old(self)@.apply_event(event),
    {
        proof {
            use_type_invariant(&*self);
        }
        match event {
            TrayEvent::ShowWindow => {
                *self = Reminder { flags: IntentFlags { show: true, ..self.flags }, ..*self };
            },
            TrayEvent::Quit => {
                *self = Reminder { flags: IntentFlags { quit: true, ..self.flags }, ..*self };
            },
        }
    }

    /// Acts on one message from the tray: raises the intent that it asks for,
    /// and does nothing for a menu entry that is not known.
    pub fn process_tray_message(&mut self, message: TrayMessage)
        ensures
            final(self)@ == match message_event(message) {
                Some(event) => old(self)@.apply_event(event),
                None => old(self)@,
            },
    {
        match message.event() {
            Some(event) => self.apply_event(event),
            None => {},
        }
    }

    /// Raises the intents of all of `events`.
    pub fn apply_events(&mut self, events: &Vec<TrayEvent>)
        ensures
            final(self)@ == old(self)@.apply_events(events@),
    {
        proof {
            use_type_invariant(&*self);
        }
        let mut show = self.flags.show;
        let mut quit = self.flags.quit;
        let mut i: usize = 0;
        while i < events.len()
            invariant
                i <= events.len(),
                show == (self.flags.show || events@.take(i as int).contains(TrayEvent::ShowWindow)),
                quit == (self.flags.quit || events@.take(i as int).contains(TrayEvent::Quit)),
            decreases events.len() - i,
        {
            proof {
                let seen = events@.take(i as int);
                assert(events@.take(i + 1) =~= seen.push(events@[i as int]));
                lemma_seq_contains_after_push(seen, events@[i as int], TrayEvent::ShowWindow);
                lemma_seq_contains_after_push(seen, events@[i as int], TrayEvent::Quit);
            }
            match events[i] {
                TrayEvent::ShowWindow => {
                    show = true;
                },
                TrayEvent::Quit => {
                    quit = true;
                },
            }
            i = i + 1;
        }
        assert(events@.take(i as int) =~= events@);
        *self = Reminder { flags: IntentFlags { show, quit, ..self.flags }, ..*self };
    }

    /// Asks for the window to be hidden to the tray.
    pub fn request_hide(&mut self)
        ensures
            final(self)@ == old(self)@.request_hide(),
    {
        proof {
            use_type_invariant(&*self);
        }
        *self = Reminder { flags: IntentFlags { hide: true, ..self.flags }, ..*self };
    }

    /// Runs one redraw cycle at `now` and returns the commands to carry out,
    /// in order. `events` are the tray events that came in since the last
    /// cycle; `close_requested` says whether the window was asked to close.
    ///
    /// A quit that is pending when the cycle begins ends the process: the
    /// only command is [`WindowCommand::Exit`] and nothing changes. A quit
    /// that comes in with `events` is acted on in the next cycle.
    pub fn update(&mut self, now: u128, events: &Vec<TrayEvent>, close_requested: bool) -> (commands:
        Vec<WindowCommand>)
        ensures
            final(self)@ == old(self)@.update(now as nat, events@, close_requested),
            commands@ == old(self)@.update_commands(now as nat, events@, close_requested),
    {
        proof {
            use_type_invariant(&*self);
        }
        let mut commands: Vec<WindowCommand> = Vec::new();
        if self.flags.quit {
            commands.push(WindowCommand::Exit);
            return commands;
        }
        self.apply_events(events);
        if close_requested && !self.flags.quit {
            commands.push(WindowCommand::CancelClose);
            self.request_hide();
        }
        self.tick(now);
        let mut planned = plan_window_commands(self.flags);
        commands.append(&mut planned);
        proof {
            use_type_invariant(&*self);
        }
        *self = Reminder {
            flags: IntentFlags {
                show: false,
                hide: false,
                minimize: false,
                fullscreen_applied: self.flags.fullscreen_target,
                ..self.flags
            },
            ..*self
        };
        commands
    }

    /// Takes `text` as the length of a working phase. Text that gives no
    /// number of minutes, a zero among them, changes nothing; the result says
    /// whether a value was stored.
    pub fn set_work_input(&mut self, text: &str) -> (stored: bool)
        ensures
            stored == minutes_in(text@) is Some,
            final(self)@ == old(self)@.with_config(old(self)@.config.with_work_input(text@)),
    {
        proof {
            use_type_invariant(&*self);
        }
        let mut config = self.config;
        let stored = config.set_work_input(text);
        proof {
            use_type_invariant(&config);
        }
        *self = Reminder { config, ..*self };
        stored
    }

    /// Takes `text` as the length of a resting phase. Text that gives no
    /// number of minutes, a zero among them, changes nothing; the result says
    /// whether a value was stored.
    pub fn set_rest_input(&mut self, text: &str) -> (stored: bool)
        ensures
            stored == minutes_in(text@) is Some,
            final(self)@ == old(self)@.with_config(old(self)@.config.with_rest_input(text@)),
    {
        proof {
            use_type_invariant(&*self);
        }
        let mut config = self.config;
        let stored = config.set_rest_input(text);
        proof {
            use_type_invariant(&config);
        }
        *self = Reminder { config, ..*self };
        stored
    }

    /// Records how an attempt to switch starting with the session on or off
    /// went: a failed attempt leaves the setting as it was.
    pub fn record_auto_start(&mut self, wanted: bool, succeeded: bool)
        ensures
            final(self)@ == old(self)@.record_auto_start(wanted, succeeded),
    {
        proof {
            use_type_invariant(&*self);
        }
        if succeeded {
            *self = Reminder { auto_start: wanted, ..*self };
        }
    }

    /// The remaining time as minutes and seconds.
    pub fn format_time(&self) -> (text: String)
        ensures
            text@ == clock_text(self@.remaining),
    {
        format_clock(self.remaining)
    }

    /// How long to wait before the next redraw, in milliseconds.
    pub fn refresh_millis(&self) -> (millis: u64)
        ensures
            millis == refresh_millis(self@.state),
    {
        match self.state {
            AppState::Resting => 16,
            AppState::Working => 100,
            AppState::Paused => 50,
        }
    }

    /// What the countdown is doing.
    pub fn state(&self) -> (state: AppState)
        ensures
            state == self@.state,
    {
        self.state
    }

    /// The time left in the current phase, in nanoseconds.
    pub fn remaining(&self) -> (nanos: u128)
        ensures
            nanos == self@.remaining,
    {
        self.remaining
    }

    /// The clock reading from which the running phase is measured; none
    /// while paused.
    pub fn anchor(&self) -> (anchor: Option<u128>)
        ensures
            anchor is Some <==> self@.anchor is Some,
            anchor is Some ==> anchor->0 == self@.anchor->0,
            anchor is Some <==> self@.state != AppState::Paused,
    {
        proof {
            use_type_invariant(self);
        }
        self.anchor
    }

    /// The configured durations.
    pub fn config(&self) -> (config: AppConfig)
        ensures
            config@ == self@.config,
    {
        self.config
    }

    /// The pending intents.
    pub fn flags(&self) -> (flags: IntentFlags)
        ensures
            flags == self@.flags,
    {
        self.flags
    }

    /// Whether the resting overlay is to be drawn in place of the main panel.
    pub fn overlay_mode(&self) -> (overlay: bool)
        ensures
            overlay == self@.flags.fullscreen_target,
    {
        self.flags.fullscreen_target
    }

    /// Whether the program is registered to start with the session.
    pub fn auto_start_enabled(&self) -> (enabled: bool)
        ensures
            enabled == self@.auto_start,
    {
        self.auto_start
    }
}

} // verus!
