//! The reminder driven by the machine's monotonic clock.

use vstd::prelude::*;
use std::time::{Duration, Instant};
use crate::config::AppConfig;
use crate::dispatch::WindowCommand;
use crate::model::ReminderView;
use crate::reminder::Reminder;
use crate::tray::TrayEvent;

verus! {

/// `std::time::Instant`, a reading of the monotonic clock. Nothing is known
/// of what a value holds.
#[verifier::external_type_specification]
#[verifier::external_body]
pub struct ExInstant(Instant);

/// `Instant::now` reads the monotonic clock. Nothing is claimed of the
/// reading.
pub assume_specification[ Instant::now ]() -> (now: Instant)
;

/// `Instant::elapsed` gives the time that has passed since the reading was
/// taken. Nothing is claimed of its length.
pub assume_specification[ Instant::elapsed ](start: &Instant) -> (elapsed: Duration)
;

/// `Duration::as_nanos` gives the whole length in nanoseconds. Nothing is
/// claimed of the number.
pub assume_specification[ Duration::as_nanos ](duration: &Duration) -> (nanos: u128)
;

/// A reminder together with the clock it runs by. Each operation that needs
/// the time reads the clock once and acts at that reading, which
/// [`RestReminderApp::reading`] then returns. The readings never decrease:
/// should the clock ever read less than it did, the last reading is used
/// again.
pub struct RestReminderApp {
    reminder: Reminder,
    origin: Instant,
    reading: u128,
}

impl View for RestReminderApp {
    type V = ReminderView;

    closed spec fn view(&self) -> ReminderView {
        self.reminder@
    }
}

impl RestReminderApp {
    /// The clock reading at which the last operation acted: nanoseconds since
    /// this value was made.
    pub closed spec fn last_reading(self) -> nat {
        self.reading as nat
    }

    /// A paused reminder with a full working phase left, and a clock that
    /// starts now.
    pub fn new(config: AppConfig, auto_start: bool) -> (app: RestReminderApp)
        ensures
            app@ == ReminderView::initial(config@, auto_start),
            app.last_reading() == 0,
    {
        RestReminderApp { reminder: Reminder::new(config, auto_start), origin: Instant::now(), reading: 0 }
    }

    /// The clock reading at which the last operation acted.
    pub fn reading(&self) -> (nanos: u128)
        ensures
            nanos == self.last_reading(),
    {
        self.reading
    }

    /// The reminder, for what does not depend on the time.
    pub fn reminder(&self) -> (reminder: &Reminder)
        ensures
            reminder@ == self@,
    {
        &self.reminder
    }

    /// The reminder, to change what does not depend on the time or to drive
    /// it with readings of the caller's choosing.
    pub fn reminder_mut(&mut self) -> (reminder: &mut Reminder)
        ensures
            reminder@ == old(self)@,
            final(self)@ == final(reminder)@,
            final(self).last_reading() == old(self).last_reading(),
    {
        &mut self.reminder
    }

    /// Reads the clock and remembers the reading.
    fn read_clock(&mut self) -> (now: u128)
        ensures
            final(self)@ == old(self)@,
            final(self).last_reading() == now,
            old(self).last_reading() <= now,
    {
        let measured = self.origin.elapsed().as_nanos();
        let now = if measured >= self.reading {
            measured
        } else {
            self.reading
        };
        self.reading = now;
        now
    }

    /// Begins a full working phase now.
    pub fn start_work(&mut self)
        ensures
            final(self)@ == old(self)@.start_work(final(self).last_reading()),
            final(self).last_reading() >= old(self).last_reading(),
    {
        let now = self.read_clock();
        self.reminder.start_work(now);
    }

    /// Begins a full resting phase now.
    pub fn start_rest(&mut self)
        ensures
            final(self)@ == old(self)@.start_rest(final(self).last_reading()),
            final(self).last_reading() >= old(self).last_reading(),
    {
        let now = self.read_clock();
        self.reminder.start_rest(now);
    }

    /// Stops the countdown now.
    pub fn pause(&mut self)
        ensures
            final(self)@ == old(self)@.pause(final(self).last_reading()),
            final(self).last_reading() >= old(self).last_reading(),
    {
        let now = self.read_clock();
        self.reminder.pause(now);
    }

    /// Lets time pass up to now.
    pub fn tick(&mut self)
        ensures
            final(self)@ == old(self)@.tick(final(self).last_reading()),
            final(self).last_reading() >= old(self).last_reading(),
    {
        let now = self.read_clock();
        self.reminder.tick(now);
    }

    /// Runs one redraw cycle now and returns the commands to carry out, in
    /// order.
    pub fn update(&mut self, events: &Vec<TrayEvent>, close_requested: bool) -> (commands: Vec<
        WindowCommand,
    >)
        ensures
            final(self)@ == old(self)@.update(
                final(self).last_reading(),
                events@,
                close_requested,
            ),
            commands@ == old(self)@.update_commands(
                final(self).last_reading(),
                events@,
                close_requested,
            ),
            final(self).last_reading() >= old(self).last_reading(),
    {
        let now = self.read_clock();
        self.reminder.update(now, events, close_requested)
    }
}

} // verus!
