//! The emulated chip as its registers show it, and what each transaction does
//! to it.
use vstd::prelude::*;
use crate::addressing::{
    spec_advance_address, spec_advance_n, spec_register_from_addr, AdvanceAddressMode, Register,
    RegisterType, AB,
};
use crate::bits::{bit_of, pack};
use crate::gpio_pin::{IoDirection, PinState};
use crate::reset_filter::{ResetDecision, ResetFilter, ResetLineEvent};

verus! {

/// Registers, addressing flags and address pointer of the chip.
pub struct ChipState {
    /// `IOCON.BANK`.
    pub bank_mode: bool,
    /// Full sequential cycling of the pointer (the chip's `IOCON.SEQOP`, inverted).
    pub sequential_mode: bool,
    /// The address pointer, kept across transactions.
    pub selected_address: u8,
    /// One entry per pin, bank A first.
    pub pins: Seq<PinState>,
    /// How many bytes of the last prepared read a confirmation may still commit.
    pub pending_read: nat,
}

/// Whether pin `i` belongs to bank `ab`.
pub open spec fn in_bank(ab: AB, i: int) -> bool {
    ab.first_pin() <= i < ab.first_pin() + 8
}

/// Pin `k` of bank `ab`.
pub open spec fn bank_pin(pins: Seq<PinState>, ab: AB, k: int) -> PinState {
    pins[ab.first_pin() + k]
}

/// The pin after its bit of a register of kind `kind` was written with `bit`.
pub open spec fn write_pin_bit(p: PinState, kind: RegisterType, bit: bool) -> PinState {
    match kind {
        RegisterType::IODIR => PinState { io_direction: IoDirection::from_bit(bit), ..p },
        RegisterType::GPPU => PinState { pull_up_enabled: bit, ..p },
        RegisterType::GPIO | RegisterType::OLAT => PinState { output_latch: bit, ..p },
        _ => p,
    }
}

/// The pins after `value` was written to `register`: bit `k` goes to pin `k`
/// of the register's bank.
pub open spec fn write_register_pins(pins: Seq<PinState>, register: Register, value: u8) -> Seq<
    PinState,
> {
    Seq::new(
        pins.len(),
        |i: int|
            if in_bank(register.ab, i) {
                write_pin_bit(
                    pins[i],
                    register.register_type,
                    bit_of(value as nat, (i - register.ab.first_pin()) as nat),
                )
            } else {
                pins[i]
            },
    )
}

/// The flags that `IODIR` (inputs) or `GPPU` (pull-ups) of a bank reports.
pub open spec fn register_bits(pins: Seq<PinState>, register: Register) -> Seq<bool> {
    Seq::new(
        8,
        |k: int|
            if register.register_type == RegisterType::IODIR {
                bank_pin(pins, register.ab, k).io_direction.to_bit()
            } else {
                bank_pin(pins, register.ab, k).pull_up_enabled
            },
    )
}

/// The flags that `GPIO` of a bank reports when its lines read `levels`: an
/// output reports its latch, an input its line.
pub open spec fn gpio_bits(pins: Seq<PinState>, ab: AB, levels: Seq<bool>) -> Seq<bool> {
    Seq::new(
        8,
        |k: int|
            if bank_pin(pins, ab, k).io_direction == IoDirection::Output {
                bank_pin(pins, ab, k).output_latch
            } else {
                levels[k]
            },
    )
}

/// The byte that a read of `register` returns when the lines of the pins read
/// `levels` (one per pin, bank A first): `IODIR` and `GPPU` report their flags;
/// `GPIO` (and `OLAT`, its alias) the latch of each output pin and the line of
/// each input pin.
pub open spec fn register_value(pins: Seq<PinState>, register: Register, levels: Seq<bool>) -> nat {
    if register.register_type == RegisterType::GPIO || register.register_type == RegisterType::OLAT {
        pack(
            gpio_bits(
                pins,
                register.ab,
                levels.subrange(register.ab.first_pin() as int, register.ab.first_pin() + 8int),
            ),
        )
    } else {
        pack(register_bits(pins, register))
    }
}

/// Whether a write to the register at an address can be carried out: the
/// address names no register (the byte is skipped) or one that can be written.
pub open spec fn writable_or_none(register: Option<Register>) -> bool {
    match register {
        Some(r) => r.register_type.spec_is_writable(),
        None => true,
    }
}

/// Whether a read of the register at an address can be carried out.
pub open spec fn readable_or_none(register: Option<Register>) -> bool {
    match register {
        Some(r) => r.register_type.spec_is_readable(),
        None => true,
    }
}

impl ChipState {
    /// All pins input, no pull-ups, latches low; `BANK = 0`, `SEQOP = 0`, address 0.
    pub open spec fn power_on() -> ChipState {
        ChipState {
            bank_mode: false,
            sequential_mode: false,
            selected_address: 0,
            pins: Seq::new(16, |i: int| PinState::spec_power_on()),
            pending_read: 0,
        }
    }

    pub open spec fn mode(self) -> AdvanceAddressMode {
        AdvanceAddressMode::spec_select(self.bank_mode, self.sequential_mode)
    }

    /// The address `k` advances after the pointer.
    pub open spec fn address_at(self, k: nat) -> u8 {
        spec_advance_n(self.selected_address, self.mode(), k)
    }

    /// The register `k` advances after the pointer.
    pub open spec fn register_at(self, k: nat) -> Option<Register> {
        spec_register_from_addr(self.address_at(k), self.bank_mode)
    }

    /// The chip with its pointer at `address`.
    pub open spec fn pointing_at(self, address: u8) -> ChipState {
        ChipState { selected_address: address, ..self }
    }

    /// Writes `value` to the register under the pointer (if it names one), then
    /// advances the pointer.
    pub open spec fn write_byte(self, value: u8) -> ChipState {
        ChipState {
            pins: match spec_register_from_addr(self.selected_address, self.bank_mode) {
                Some(register) => write_register_pins(self.pins, register, value),
                None => self.pins,
            },
            selected_address: spec_advance_address(self.selected_address, self.mode()),
            ..self
        }
    }

    /// Writes `values` one after another.
    pub open spec fn write_values(self, values: Seq<u8>) -> ChipState
        decreases values.len(),
    {
        if values.len() == 0 {
            self
        } else {
            self.write_values(values.drop_last()).write_byte(values.last())
        }
    }

    /// A write transaction: the first byte becomes the pointer, the others are
    /// written from there. It ends any prepared read.
    pub open spec fn after_write(self, bytes: Seq<u8>) -> ChipState {
        if bytes.len() == 0 {
            self
        } else {
            self.write_start(bytes).write_values(bytes.skip(1))
        }
    }

    /// Every value byte of the transaction lands on a register that can be
    /// written, or on no register.
    pub open spec fn write_supported(self, bytes: Seq<u8>) -> bool {
        bytes.len() == 0 || forall|k: nat|
            k + 1 < bytes.len() ==> writable_or_none(
                #[trigger] self.pointing_at(bytes[0]).register_at(k),
            )
    }

    /// Every byte of an `n`-byte read from the pointer lands on a register that
    /// can be read, or on no register.
    pub open spec fn read_supported(self, n: nat) -> bool {
        forall|k: nat| k < n ==> readable_or_none(#[trigger] self.register_at(k))
    }

    /// The chip after a read of `n` bytes was prepared.
    pub open spec fn after_prepare(self, n: nat) -> ChipState {
        ChipState { pending_read: n, ..self }
    }

    /// The chip after the bus reported `bytes_read` more bytes of the prepared
    /// read as sent: the pointer advances once per byte, but no further than the
    /// prepared bytes that are not confirmed yet.
    pub open spec fn after_confirm(self, bytes_read: nat) -> ChipState {
        let n = if bytes_read < self.pending_read {
            bytes_read
        } else {
            self.pending_read
        };
        ChipState {
            selected_address: self.address_at(n),
            pending_read: (self.pending_read - n) as nat,
            ..self
        }
    }

    /// The chip as a write transaction of `bytes` leaves it after its first
    /// byte: pointer set, prepared read ended.
    pub open spec fn write_start(self, bytes: Seq<u8>) -> ChipState {
        ChipState { pending_read: 0, ..self.pointing_at(bytes[0]) }
    }

    /// Whether byte `k` of a read from the pointer samples the line of pin `i`:
    /// it reads `GPIO` or `OLAT` of the pin's bank, and the pin is an input.
    pub open spec fn samples_at(self, k: nat, i: int) -> bool {
        match self.register_at(k) {
            Some(register) => (register.register_type == RegisterType::GPIO
                || register.register_type == RegisterType::OLAT) && in_bank(register.ab, i)
                && self.pins[i].io_direction == IoDirection::Input,
            None => false,
        }
    }

    /// Whether one of the first `n` bytes of a read from the pointer samples the
    /// line of pin `i`.
    pub open spec fn read_samples(self, n: nat, i: int) -> bool {
        exists|k: nat| k < n && #[trigger] self.samples_at(k, i)
    }

    /// What a prepared read puts in byte `k` of the buffer, which held
    /// `before`, when the lines read `levels`: the value of the register `k`
    /// advances after the pointer, or `before` where the address names no
    /// register.
    pub open spec fn read_fills(self, k: nat, levels: Seq<bool>, before: u8, byte: u8) -> bool {
        match self.register_at(k) {
            Some(register) => byte as nat == register_value(self.pins, register, levels),
            None => byte == before,
        }
    }

    /// The chip, reset filter and decision after `event` on the reset line:
    /// the chip goes back to `power_on` when the filter decides on a reset, and
    /// stays as it is otherwise.
    pub open spec fn reset_line_step(self, filter: ResetFilter, event: ResetLineEvent) -> (
        ChipState,
        ResetFilter,
        ResetDecision,
    ) {
        let (next, decision) = filter.spec_step(event);
        (
            if decision == ResetDecision::Reset {
                ChipState::power_on()
            } else {
                self
            },
            next,
            decision,
        )
    }

    /// The chip with other addressing flags.
    pub open spec fn with_addressing_mode(self, bank_mode: bool, sequential_mode: bool) -> ChipState {
        ChipState { bank_mode, sequential_mode, ..self }
    }
}

} // verus!
