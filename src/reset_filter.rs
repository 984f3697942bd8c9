//! The reset line: a reset happens when the line comes back high after being
//! held low for at least the chip's minimum reset pulse.
use vstd::prelude::*;

verus! {

/// The shortest low pulse that resets the chip, in microseconds (from the data sheet).
pub const MIN_RESET_PULSE_MICROS: u64 = 1;

/// A transition seen on the reset line, with the time it was seen.
#[derive(Debug, Clone, Copy, PartialEq, Eq, Structural)]
pub enum ResetLineEvent {
    WentLow { at_micros: u64 },
    WentHigh { at_micros: u64 },
}

/// The transition that the filter waits for next.
#[derive(Debug, Clone, Copy, PartialEq, Eq, Structural)]
pub enum ResetLineWait {
    Low,
    High,
}

/// What a transition on the reset line amounts to.
#[derive(Debug, Clone, Copy, PartialEq, Eq, Structural)]
pub enum ResetDecision {
    /// Nothing yet: the pulse, if any, has not ended.
    Pending,
    /// The line was low long enough: the chip resets.
    Reset,
    /// The line was low for `low_micros`, too short to reset the chip.
    TooShort { low_micros: u64 },
}

/// Tracks when the reset line went low.
#[derive(Debug, Clone, Copy, PartialEq, Eq, Structural)]
pub struct ResetFilter {
    /// When the line went low, while it is low.
    pub low_since: Option<u64>,
}

/// The time from `from` to `to`, or `0` where `from` is later.
pub open spec fn spec_elapsed(from: u64, to: u64) -> u64 {
    if to >= from {
        (to - from) as u64
    } else {
        0
    }
}

impl ResetFilter {
    /// The filter after `event`, and what the event amounts to.
    pub open spec fn spec_step(self, event: ResetLineEvent) -> (ResetFilter, ResetDecision) {
        match event {
            ResetLineEvent::WentLow { at_micros } => match self.low_since {
                Some(_) => (self, ResetDecision::Pending),
                None => (ResetFilter { low_since: Some(at_micros) }, ResetDecision::Pending),
            },
            ResetLineEvent::WentHigh { at_micros } => match self.low_since {
                None => (self, ResetDecision::Pending),
                Some(since) => {
                    let low = spec_elapsed(since, at_micros);
                    (
                        ResetFilter { low_since: None },
                        if low >= MIN_RESET_PULSE_MICROS {
                            ResetDecision::Reset
                        } else {
                            ResetDecision::TooShort { low_micros: low }
                        },
                    )
                },
            },
        }
    }

    pub fn new() -> (r: ResetFilter)
        ensures
            r.low_since == None::<u64>,
    {
        ResetFilter { low_since: None }
    }

    /// The transition to wait for: the end of the pulse while the line is low,
    /// else the start of one.
    pub fn awaited(&self) -> (r: ResetLineWait)
        ensures
            r == (if self.low_since.is_some() {
                ResetLineWait::High
            } else {
                ResetLineWait::Low
            }),
    {
        match self.low_since {
            Some(_) => ResetLineWait::High,
            None => ResetLineWait::Low,
        }
    }

    /// Takes in a transition of the line.
    pub fn on_event(&mut self, event: ResetLineEvent) -> (r: ResetDecision)
        ensures
            (*final(self), r) == old(self).spec_step(event),
    {
        match event {
            ResetLineEvent::WentLow { at_micros } => {
                if self.low_since.is_none() {
                    self.low_since = Some(at_micros);
                }
                ResetDecision::Pending
            },
            ResetLineEvent::WentHigh { at_micros } => match self.low_since {
                None => ResetDecision::Pending,
                Some(since) => {
                    self.low_since = None;
                    let low = if at_micros >= since {
                        at_micros - since
                    } else {
                        0
                    };
                    if low >= MIN_RESET_PULSE_MICROS {
                        ResetDecision::Reset
                    } else {
                        ResetDecision::TooShort { low_micros: low }
                    }
                },
            },
        }
    }
}

} // verus!
