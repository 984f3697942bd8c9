//! What the transactions of the emulated chip guarantee, stated over its model.
use vstd::prelude::*;
use crate::addressing::{
    spec_advance_n, spec_register_from_addr, AdvanceAddressMode, Register, RegisterType, AB,
};
use crate::bits::{
    bit_of, bits_of, lemma_bit_of_pack, lemma_pack_bits_of, lemma_two_pow_8, pack,
};
use crate::chip::{gpio_bits, register_bits, register_value, write_register_pins, ChipState};
use crate::gpio_pin::PinState;
use crate::reset_filter::{
    spec_elapsed, ResetDecision, ResetFilter, ResetLineEvent, MIN_RESET_PULSE_MICROS,
};

verus! {

proof fn lemma_two_values(chip: ChipState, address: u8, first: u8, second: u8)
    ensures
        chip.after_write(seq![address, first, second]) == chip.write_start(
            seq![address, first, second],
        ).write_byte(first).write_byte(second),
{
    let bytes = seq![address, first, second];
    let values = bytes.skip(1);
    assert(values =~= seq![first, second]);
    assert(values.drop_last() =~= seq![first]);
    assert(values.drop_last().drop_last() =~= Seq::<u8>::empty());
    reveal_with_fuel(ChipState::write_values, 3);
}

/// With `BANK = 0` and `SEQOP = 0`, a write of address `0` and two values puts the
/// first in `IODIR` of bank A and the second in `IODIR` of bank B: the pointer
/// toggles from `0` to `1`, and back to `0`.
pub proof fn lemma_toggle_mode_writes_both_banks(chip: ChipState, first: u8, second: u8)
    requires
        !chip.bank_mode,
        !chip.sequential_mode,
    ensures
        chip.write_supported(seq![0u8, first, second]),
        chip.after_write(seq![0u8, first, second]).pins == write_register_pins(
            write_register_pins(
                chip.pins,
                Register { register_type: RegisterType::IODIR, ab: AB::A },
                first,
            ),
            Register { register_type: RegisterType::IODIR, ab: AB::B },
            second,
        ),
        chip.after_write(seq![0u8, first, second]).selected_address == 0,
{
    lemma_two_values(chip, 0, first, second);
    reveal_with_fuel(spec_advance_n, 3);
    let bytes = seq![0u8, first, second];
    assert forall|k: nat| k + 1 < bytes.len() implies crate::chip::writable_or_none(
        #[trigger] chip.pointing_at(bytes[0]).register_at(k),
    ) by {
        if k == 1 {
            assert(chip.pointing_at(0).address_at(1) == 1);
        }
    }
}

/// With `SEQOP = 1`, a write of address `21` and one value leaves the pointer
/// wrapped around to `0`.
pub proof fn lemma_cycle_mode_wraps(chip: ChipState, value: u8)
    requires
        chip.sequential_mode,
    ensures
        chip.write_supported(seq![21u8, value]),
        chip.after_write(seq![21u8, value]).selected_address == 0,
{
    let bytes = seq![21u8, value];
    assert(bytes.skip(1) =~= seq![value]);
    assert(bytes.skip(1).drop_last() =~= Seq::<u8>::empty());
    reveal_with_fuel(ChipState::write_values, 2);
    assert forall|k: nat| k + 1 < bytes.len() implies crate::chip::writable_or_none(
        #[trigger] chip.pointing_at(bytes[0]).register_at(k),
    ) by {
        assert(chip.pointing_at(21).address_at(0) == 21);
    }
}

/// With `BANK = 1` and `SEQOP = 0`, a write of an address and two values puts
/// both values in the register at that address, one after the other, and the
/// pointer does not move.
pub proof fn lemma_fixed_mode_stays(chip: ChipState, address: u8, first: u8, second: u8)
    requires
        chip.bank_mode,
        !chip.sequential_mode,
    ensures
        chip.after_write(seq![address, first, second]).selected_address == address,
        chip.after_write(seq![address, first, second]).pins == match spec_register_from_addr(
            address,
            true,
        ) {
            Some(register) => write_register_pins(
                write_register_pins(chip.pins, register, first),
                register,
                second,
            ),
            None => chip.pins,
        },
{
    lemma_two_values(chip, address, first, second);
}

/// Reading back `IODIR` or `GPPU` of a bank gives the byte last written to it.
pub proof fn lemma_register_round_trip(pins: Seq<PinState>, register: Register, value: u8)
    requires
        pins.len() == 16,
        register.register_type == RegisterType::IODIR || register.register_type
            == RegisterType::GPPU,
    ensures
        pack(register_bits(write_register_pins(pins, register, value), register)) == value,
        forall|levels: Seq<bool>|
            #[trigger] register_value(write_register_pins(pins, register, value), register, levels)
                == value,
{
    let written = write_register_pins(pins, register, value);
    assert(register_bits(written, register) =~= bits_of(value as nat, 8));
    lemma_two_pow_8();
    lemma_pack_bits_of(value as nat, 8);
}

/// A pin made an output with its latch set reads as `1` in `GPIO`, whatever its
/// line shows; made an input again, its bit of `GPIO` is the level of its line.
pub proof fn lemma_output_latch_visible(
    pins: Seq<PinState>,
    directions: u8,
    latches: u8,
    inputs: u8,
    levels: Seq<bool>,
)
    requires
        pins.len() == 16,
        levels.len() == 16,
        !bit_of(directions as nat, 0),
        bit_of(latches as nat, 0),
        bit_of(inputs as nat, 0),
    ensures
        ({
            let gpio_a = Register { register_type: RegisterType::GPIO, ab: AB::A };
            let iodir_a = Register { register_type: RegisterType::IODIR, ab: AB::A };
            let latched = write_register_pins(
                write_register_pins(pins, iodir_a, directions),
                gpio_a,
                latches,
            );
            &&& bit_of(register_value(latched, gpio_a, levels), 0)
            &&& bit_of(
                register_value(write_register_pins(latched, iodir_a, inputs), gpio_a, levels),
                0,
            ) == levels[0]
        }),
{
    let gpio_a = Register { register_type: RegisterType::GPIO, ab: AB::A };
    let iodir_a = Register { register_type: RegisterType::IODIR, ab: AB::A };
    let latched = write_register_pins(
        write_register_pins(pins, iodir_a, directions),
        gpio_a,
        latches,
    );
    let inputs_again = write_register_pins(latched, iodir_a, inputs);
    let bank_levels = levels.subrange(0, 8);
    lemma_bit_of_pack(gpio_bits(latched, AB::A, bank_levels), 0);
    lemma_bit_of_pack(gpio_bits(inputs_again, AB::A, bank_levels), 0);
}

/// A low pulse on the reset line of at least `MIN_RESET_PULSE_MICROS` brings the
/// chip, whatever was written to it, back to its power-on state.
pub proof fn lemma_long_pulse_resets(
    chip: ChipState,
    filter: ResetFilter,
    low_at: u64,
    high_at: u64,
)
    requires
        filter.low_since.is_none(),
        spec_elapsed(low_at, high_at) >= MIN_RESET_PULSE_MICROS,
    ensures
        ({
            let (pressed, filter_low, _) = chip.reset_line_step(
                filter,
                ResetLineEvent::WentLow { at_micros: low_at },
            );
            let (released, _, decision) = pressed.reset_line_step(
                filter_low,
                ResetLineEvent::WentHigh { at_micros: high_at },
            );
            pressed == chip && decision == ResetDecision::Reset && released
                == ChipState::power_on()
        }),
{
}

/// A low pulse on the reset line shorter than `MIN_RESET_PULSE_MICROS` leaves
/// every register as it was.
pub proof fn lemma_short_pulse_ignored(
    chip: ChipState,
    filter: ResetFilter,
    low_at: u64,
    high_at: u64,
)
    requires
        filter.low_since.is_none(),
        spec_elapsed(low_at, high_at) < MIN_RESET_PULSE_MICROS,
    ensures
        ({
            let (pressed, filter_low, _) = chip.reset_line_step(
                filter,
                ResetLineEvent::WentLow { at_micros: low_at },
            );
            let (released, _, decision) = pressed.reset_line_step(
                filter_low,
                ResetLineEvent::WentHigh { at_micros: high_at },
            );
            released == chip && decision != ResetDecision::Reset
        }),
{
}

/// A prepared read of `len` bytes confirmed with `n < len` bytes advances the
/// pointer `n` times, not `len` times.
pub proof fn lemma_confirm_advances_by_bytes_read(chip: ChipState, len: nat, n: nat)
    requires
        n < len,
    ensures
        chip.after_prepare(len).after_confirm(n).selected_address == spec_advance_n(
            chip.selected_address,
            chip.mode(),
            n,
        ),
{
}

/// Confirming `a` bytes and then `b` bytes of a prepared read advances the
/// pointer as confirming `a + b` bytes at once; confirming none changes nothing.
pub proof fn lemma_confirm_adds_up(chip: ChipState, a: nat, b: nat)
    ensures
        chip.after_confirm(a).after_confirm(b) == chip.after_confirm(a + b),
        chip.after_confirm(0) == chip,
{
    let n = if a < chip.pending_read { a } else { chip.pending_read };
    let rest = (chip.pending_read - n) as nat;
    let m = if b < rest { b } else { rest };
    lemma_advance_n_adds(chip.selected_address, chip.mode(), n, m);
}

/// `n` advances and then `m` more are `n + m` advances.
pub proof fn lemma_advance_n_adds(address: u8, mode: AdvanceAddressMode, n: nat, m: nat)
    ensures
        spec_advance_n(spec_advance_n(address, mode, n), mode, m) == spec_advance_n(
            address,
            mode,
            n + m,
        ),
    decreases m,
{
    if m > 0 {
        lemma_advance_n_adds(address, mode, n, (m - 1) as nat);
    }
}

/// The chip and reset filter after the low pulses `pulses` (each the time the
/// line went low and the time it came back high), one after another.
pub open spec fn after_pulses(chip: ChipState, filter: ResetFilter, pulses: Seq<(u64, u64)>) -> (
    ChipState,
    ResetFilter,
)
    decreases pulses.len(),
{
    if pulses.len() == 0 {
        (chip, filter)
    } else {
        let (c, f) = after_pulses(chip, filter, pulses.drop_last());
        let (pressed, filter_low, _) = c.reset_line_step(
            f,
            ResetLineEvent::WentLow { at_micros: pulses.last().0 },
        );
        let (released, filter_high, _) = pressed.reset_line_step(
            filter_low,
            ResetLineEvent::WentHigh { at_micros: pulses.last().1 },
        );
        (released, filter_high)
    }
}

/// However many low pulses shorter than `MIN_RESET_PULSE_MICROS` the reset line
/// shows, the registers stay as they were, and the filter waits for the next one.
pub proof fn lemma_short_pulses_ignored(
    chip: ChipState,
    filter: ResetFilter,
    pulses: Seq<(u64, u64)>,
)
    requires
        filter.low_since.is_none(),
        forall|i: int|
            0 <= i < pulses.len() ==> spec_elapsed(#[trigger] pulses[i].0, pulses[i].1)
                < MIN_RESET_PULSE_MICROS,
    ensures
        after_pulses(chip, filter, pulses).0 == chip,
        after_pulses(chip, filter, pulses).1.low_since.is_none(),
    decreases pulses.len(),
{
    if pulses.len() > 0 {
        let rest = pulses.drop_last();
        assert forall|i: int|
            0 <= i < rest.len() implies spec_elapsed(#[trigger] rest[i].0, rest[i].1)
                < MIN_RESET_PULSE_MICROS by {
            assert(rest[i] == pulses[i]);
        }
        lemma_short_pulses_ignored(chip, filter, rest);
        assert(spec_elapsed(pulses[pulses.len() - 1].0, pulses[pulses.len() - 1].1)
            < MIN_RESET_PULSE_MICROS);
    }
}

/// Whatever pulses came before, a last low pulse of at least
/// `MIN_RESET_PULSE_MICROS` leaves the chip in its power-on state.
pub proof fn lemma_last_long_pulse_resets(
    chip: ChipState,
    filter: ResetFilter,
    pulses: Seq<(u64, u64)>,
)
    requires
        filter.low_since.is_none(),
        pulses.len() > 0,
        spec_elapsed(pulses.last().0, pulses.last().1) >= MIN_RESET_PULSE_MICROS,
    ensures
        after_pulses(chip, filter, pulses).0 == ChipState::power_on(),
        after_pulses(chip, filter, pulses).1.low_since.is_none(),
{
    lemma_pulses_leave_filter_idle(chip, filter, pulses.drop_last());
}

/// After whole pulses, the filter waits for the line to go low again.
pub proof fn lemma_pulses_leave_filter_idle(
    chip: ChipState,
    filter: ResetFilter,
    pulses: Seq<(u64, u64)>,
)
    requires
        filter.low_since.is_none(),
    ensures
        after_pulses(chip, filter, pulses).1.low_since.is_none(),
    decreases pulses.len(),
{
    if pulses.len() > 0 {
        lemma_pulses_leave_filter_idle(chip, filter, pulses.drop_last());
    }
}

} // verus!
