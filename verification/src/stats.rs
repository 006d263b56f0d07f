//! Diagnostic counters over classification outcomes.
//!
//! An explicit counter object, owned by whichever component aggregates
//! statistics and passed by reference — never hidden global state.

use vstd::prelude::*;

use crate::radio_message::{AppMessage, DecodeError, RadioMessage};

verus! {

/// The outcome counts one telemetry message.
pub open spec fn counts_telemetry(outcome: Result<RadioMessage, DecodeError>) -> bool {
    outcome matches Ok(m) && m.app is Telemetry
}

/// The outcome counts one position message.
pub open spec fn counts_position(outcome: Result<RadioMessage, DecodeError>) -> bool {
    outcome matches Ok(m) && m.app is Position
}

/// The outcome counts one text message.
pub open spec fn counts_text(outcome: Result<RadioMessage, DecodeError>) -> bool {
    outcome matches Ok(m) && m.app is Text
}

/// Counts of classified messages and of decode failures.
#[derive(Clone, Copy, Debug, PartialEq, Eq)]
pub struct DecodeCounters {
    pub telemetry: u64,
    pub position: u64,
    pub text: u64,
    pub failures: u64,
}

impl DecodeCounters {
    /// All counts start at zero.
    pub fn new() -> (r: Self)
        ensures
            r.telemetry == 0,
            r.position == 0,
            r.text == 0,
            r.failures == 0,
    {
        DecodeCounters { telemetry: 0, position: 0, text: 0, failures: 0 }
    }

    /// Record one classification outcome: exactly one count rises by one.
    pub fn note(&mut self, outcome: &Result<RadioMessage, DecodeError>)
        requires
            old(self).telemetry < u64::MAX,
            old(self).position < u64::MAX,
            old(self).text < u64::MAX,
            old(self).failures < u64::MAX,
        ensures
            final(self).telemetry == old(self).telemetry + (if counts_telemetry(*outcome) {
                1int
            } else {
                0int
            }),
            final(self).position == old(self).position + (if counts_position(*outcome) {
                1int
            } else {
                0int
            }),
            final(self).text == old(self).text + (if counts_text(*outcome) {
                1int
            } else {
                0int
            }),
            final(self).failures == old(self).failures + (if outcome is Err {
                1int
            } else {
                0int
            }),
    {
        match outcome {
            Ok(m) => match m.app {
                AppMessage::Telemetry(_) => {
                    self.telemetry = self.telemetry + 1;
                },
                AppMessage::Position(_) => {
                    self.position = self.position + 1;
                },
                AppMessage::Text(_) => {
                    self.text = self.text + 1;
                },
            },
            Err(_) => {
                self.failures = self.failures + 1;
            },
        }
    }
}

} // verus!
