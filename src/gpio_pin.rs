//! The pins that the expander drives, and the state it keeps for each.
use vstd::prelude::*;

verus! {

/// Direction of a pin, as its `IODIR` bit gives it (`1` is `Input`).
#[derive(Debug, Clone, Copy, PartialEq, Eq, Structural)]
pub enum IoDirection {
    Output,
    Input,
}

impl IoDirection {
    pub open spec fn from_bit(bit: bool) -> IoDirection {
        if bit {
            IoDirection::Input
        } else {
            IoDirection::Output
        }
    }

    pub open spec fn to_bit(self) -> bool {
        self == IoDirection::Input
    }
}

impl From<bool> for IoDirection {
    fn from(value: bool) -> (r: Self)
        ensures
            r == IoDirection::from_bit(value),
    {
        if value {
            IoDirection::Input
        } else {
            IoDirection::Output
        }
    }
}

impl vstd::std_specs::convert::FromSpecImpl<bool> for IoDirection {
    open spec fn obeys_from_spec() -> bool {
        true
    }

    open spec fn from_spec(v: bool) -> IoDirection {
        IoDirection::from_bit(v)
    }
}

impl From<IoDirection> for bool {
    fn from(value: IoDirection) -> (r: Self)
        ensures
            r == value.to_bit(),
    {
        match value {
            IoDirection::Output => false,
            IoDirection::Input => true,
        }
    }
}

impl vstd::std_specs::convert::FromSpecImpl<IoDirection> for bool {
    open spec fn obeys_from_spec() -> bool {
        true
    }

    open spec fn from_spec(v: IoDirection) -> bool {
        v.to_bit()
    }
}

/// What the expander holds for one pin.
///
/// The pull-up only matters while the pin is an input and the latch only while
/// it is an output, but both are kept in either direction.
#[derive(Debug, Clone, Copy, PartialEq, Eq, Structural)]
pub struct PinState {
    pub io_direction: IoDirection,
    pub pull_up_enabled: bool,
    pub output_latch: bool,
}

impl PinState {
    /// Input, no pull-up, latch low.
    pub open spec fn spec_power_on() -> PinState {
        PinState { io_direction: IoDirection::Input, pull_up_enabled: false, output_latch: false }
    }

    pub fn power_on() -> (r: PinState)
        ensures
            r == PinState::spec_power_on(),
    {
        PinState { io_direction: IoDirection::Input, pull_up_enabled: false, output_latch: false }
    }
}

/// A line that the expander drives or samples: a microcontroller pin, or a
/// simulated one.
pub trait GpioPin: Sized {
    /// The configuration that was last pushed to the pin.
    spec fn configuration(&self) -> PinState;

    /// The pin after it was configured with `state`.
    spec fn configured_as(&self, state: PinState) -> Self;

    /// The level that a sample of the line reads.
    spec fn level(&self) -> bool;

    /// Sets the line's direction, pull-up and output level.
    fn configure(&mut self, io_direction: IoDirection, pull_up_enabled: bool, output_latch: bool)
        ensures
            *final(self) == old(self).configured_as(
                PinState { io_direction, pull_up_enabled, output_latch },
            ),
            final(self).configuration() == (PinState {
                io_direction,
                pull_up_enabled,
                output_latch,
            }),
    ;

    /// Samples the line's level; the configuration stays as it is.
    fn is_high(&mut self) -> (r: bool)
        ensures
            r == old(self).level(),
            final(self).configuration() == old(self).configuration(),
    ;
}

/// A pin without hardware: it records what it was configured with and how
/// often, and reports the level that its owner sets.
#[derive(Debug, Clone, Copy, PartialEq, Eq)]
pub struct SimulatedPin {
    pub state: PinState,
    /// The level that `is_high` reports.
    pub level: bool,
    /// How many times `configure` was called (saturating).
    pub configure_calls: u64,
}

impl SimulatedPin {
    pub fn new(level: bool) -> (r: SimulatedPin)
        ensures
            r.state == PinState::spec_power_on(),
            r.level == level,
            r.configure_calls == 0,
    {
        SimulatedPin { state: PinState::power_on(), level, configure_calls: 0 }
    }
}

impl GpioPin for SimulatedPin {
    open spec fn configuration(&self) -> PinState {
        self.state
    }

    /// The new state, and one more call counted.
    open spec fn configured_as(&self, state: PinState) -> SimulatedPin {
        SimulatedPin {
            state,
            configure_calls: if self.configure_calls < u64::MAX {
                (self.configure_calls + 1) as u64
            } else {
                self.configure_calls
            },
            ..*self
        }
    }

    open spec fn level(&self) -> bool {
        self.level
    }

    fn configure(&mut self, io_direction: IoDirection, pull_up_enabled: bool, output_latch: bool) {
        self.state = PinState { io_direction, pull_up_enabled, output_latch };
        self.configure_calls = self.configure_calls.saturating_add(1);
    }

    fn is_high(&mut self) -> (r: bool)
        ensures
            *final(self) == *old(self),
    {
        self.level
    }
}

} // verus!
