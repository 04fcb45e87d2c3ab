//! The two configured durations.

use vstd::prelude::*;
use crate::input::{minutes_in, parse_minutes};

verus! {

/// The length of a working phase and of a resting phase, in minutes.
///
/// Both are positive: no constructor or setter stores a zero.
#[derive(Clone, Copy, Debug)]
pub struct AppConfig {
    work_minutes: u64,
    rest_minutes: u64,
}

/// What an [`AppConfig`] holds, as natural numbers.
pub struct ConfigView {
    pub work_minutes: nat,
    pub rest_minutes: nat,
}

impl ConfigView {
    /// Both durations are positive.
    pub open spec fn wf(self) -> bool {
        self.work_minutes > 0 && self.rest_minutes > 0
    }

    /// This configuration with a working phase of `minutes` minutes, or
    /// unchanged where `minutes` is zero.
    pub open spec fn with_work_minutes(self, minutes: nat) -> ConfigView {
        if minutes > 0 {
            ConfigView { work_minutes: minutes, ..self }
        } else {
            self
        }
    }

    /// This configuration with a resting phase of `minutes` minutes, or
    /// unchanged where `minutes` is zero.
    pub open spec fn with_rest_minutes(self, minutes: nat) -> ConfigView {
        if minutes > 0 {
            ConfigView { rest_minutes: minutes, ..self }
        } else {
            self
        }
    }

    /// This configuration after `text` was typed in as the length of a
    /// working phase: changed where `text` gives a number of minutes,
    /// unchanged otherwise.
    pub open spec fn with_work_input(self, text: Seq<char>) -> ConfigView {
        match minutes_in(text) {
            Some(minutes) => self.with_work_minutes(minutes as nat),
            None => self,
        }
    }

    /// This configuration after `text` was typed in as the length of a
    /// resting phase: changed where `text` gives a number of minutes,
    /// unchanged otherwise.
    pub open spec fn with_rest_input(self, text: Seq<char>) -> ConfigView {
        match minutes_in(text) {
            Some(minutes) => self.with_rest_minutes(minutes as nat),
            None => self,
        }
    }
}

impl View for AppConfig {
    type V = ConfigView;

    closed spec fn view(&self) -> ConfigView {
        ConfigView { work_minutes: self.work_minutes as nat, rest_minutes: self.rest_minutes as nat }
    }
}

impl AppConfig {
    /// Holds of every configuration there is.
    #[verifier::type_invariant]
    pub open spec fn inv(self) -> bool {
        self@.wf()
    }

    /// A configuration with the given durations, unless one of them is zero.
    pub fn new(work_minutes: u64, rest_minutes: u64) -> (config: Option<AppConfig>)
        ensures
            config is Some <==> work_minutes > 0 && rest_minutes > 0,
            config matches Some(c) ==> c@.work_minutes == work_minutes && c@.rest_minutes
                == rest_minutes,
    {
        if work_minutes > 0 && rest_minutes > 0 {
            Some(AppConfig { work_minutes, rest_minutes })
        } else {
            None
        }
    }

    /// The length of a working phase, in minutes.
    pub fn work_minutes(&self) -> (minutes: u64)
        ensures
            minutes == self@.work_minutes,
            minutes > 0,
    {
        proof {
            use_type_invariant(self);
        }
        self.work_minutes
    }

    /// The length of a resting phase, in minutes.
    pub fn rest_minutes(&self) -> (minutes: u64)
        ensures
            minutes == self@.rest_minutes,
            minutes > 0,
    {
        proof {
            use_type_invariant(self);
        }
        self.rest_minutes
    }

    /// Sets the length of a working phase. A zero is not stored; the result
    /// says whether the value was.
    pub fn set_work_minutes(&mut self, minutes: u64) -> (stored: bool)
        ensures
            stored == (minutes > 0),
            final(self)@ == old(self)@.with_work_minutes(minutes as nat),
    {
        proof {
            use_type_invariant(&*self);
        }
        if minutes > 0 {
            self.work_minutes = minutes;
            true
        } else {
            false
        }
    }

    /// Sets the length of a resting phase. A zero is not stored; the result
    /// says whether the value was.
    pub fn set_rest_minutes(&mut self, minutes: u64) -> (stored: bool)
        ensures
            stored == (minutes > 0),
            final(self)@ == old(self)@.with_rest_minutes(minutes as nat),
    {
        proof {
            use_type_invariant(&*self);
        }
        if minutes > 0 {
            self.rest_minutes = minutes;
            true
        } else {
            false
        }
    }

    /// Takes `text` as the length of a working phase. Text that gives no
    /// number of minutes leaves the configuration as it was; the result says
    /// whether a value was stored.
    pub fn set_work_input(&mut self, text: &str) -> (stored: bool)
        ensures
            stored == minutes_in(text@) is Some,
            final(self)@ == old(self)@.with_work_input(text@),
    {
        match parse_minutes(text) {
            Some(minutes) => self.set_work_minutes(minutes),
            None => false,
        }
    }

    /// Takes `text` as the length of a resting phase. Text that gives no
    /// number of minutes leaves the configuration as it was; the result says
    /// whether a value was stored.
    pub fn set_rest_input(&mut self, text: &str) -> (stored: bool)
        ensures
            stored == minutes_in(text@) is Some,
            final(self)@ == old(self)@.with_rest_input(text@),
    {
        match parse_minutes(text) {
            Some(minutes) => self.set_rest_minutes(minutes),
            None => false,
        }
    }
}

impl Default for AppConfig {
    /// Twenty-five minutes of work, five of rest.
    fn default() -> (config: AppConfig)
        ensures
            config@.work_minutes == 25,
            config@.rest_minutes == 5,
    {
        AppConfig { work_minutes: 25, rest_minutes: 5 }
    }
}

} // verus!
