use mcp23017_emulator::addressing::{
    advance_address, register_from_addr, AdvanceAddressMode, FormatPinIndex, Register,
    RegisterType, AB,
};
use mcp23017_emulator::bits::{get_bit, pack_byte};
use mcp23017_emulator::gpio_pin::{IoDirection, PinState, SimulatedPin};
use mcp23017_emulator::mcp23017::Mcp23017;
use mcp23017_emulator::reset_filter::{
    ResetDecision, ResetFilter, ResetLineEvent, ResetLineWait, MIN_RESET_PULSE_MICROS,
};

fn chip_with_levels(levels: [bool; 16]) -> Mcp23017<SimulatedPin> {
    let pins: Vec<SimulatedPin> = levels.iter().map(|&l| SimulatedPin::new(l)).collect();
    Mcp23017::new(pins)
}

fn chip() -> Mcp23017<SimulatedPin> {
    chip_with_levels([false; 16])
}

fn write(m: &mut Mcp23017<SimulatedPin>, bytes: &[u8]) {
    assert!(m.write_is_supported(bytes));
    m.process_write_transaction(bytes);
}

fn read(m: &mut Mcp23017<SimulatedPin>, len: usize) -> Vec<u8> {
    assert!(m.read_is_supported(len));
    let mut buffer = vec![0xAAu8; len];
    m.prepare_read_buffer(&mut buffer);
    m.confirm_bytes_read(len);
    buffer
}

fn is_power_on(m: &Mcp23017<SimulatedPin>) -> bool {
    (0..16).all(|i| m.pin_state(i) == PinState::power_on())
        && !m.bank_mode()
        && !m.sequential_mode()
        && m.selected_address() == 0
}

#[test]
fn new_chip_is_at_power_on_defaults() {
    let m = chip();
    assert!(is_power_on(&m));
    for i in 0..16 {
        assert_eq!(m.pin(i).state, PinState::power_on());
        assert_eq!(m.pin(i).configure_calls, 1);
    }
}

#[test]
fn toggle_mode_writes_bank_a_then_bank_b_iodir() {
    let mut m = chip();
    write(&mut m, &[0, 0b0000_0011, 0b1111_0000]);
    for i in 0..8 {
        let expected = if i < 2 { IoDirection::Input } else { IoDirection::Output };
        assert_eq!(m.pin_state(i).io_direction, expected);
    }
    for i in 8..16 {
        let expected = if i >= 12 { IoDirection::Input } else { IoDirection::Output };
        assert_eq!(m.pin_state(i).io_direction, expected);
    }
    assert_eq!(m.selected_address(), 0);
}

#[test]
fn sequential_mode_wraps_pointer_from_21_to_0() {
    let mut m = chip();
    m.set_addressing_mode(false, true);
    write(&mut m, &[21, 0x01]);
    assert_eq!(m.selected_address(), 0);
    // Address 21 is OLAT of bank B.
    assert!(m.pin_state(8).output_latch);
    assert!(!m.pin_state(9).output_latch);
}

#[test]
fn sequential_mode_in_bank_mode_also_wraps() {
    let mut m = chip();
    m.set_addressing_mode(true, true);
    write(&mut m, &[21, 0x80]);
    assert_eq!(m.selected_address(), 0);
    assert!(m.pin_state(15).output_latch);
}

#[test]
fn fixed_mode_keeps_pointer_on_same_register() {
    let mut m = chip();
    m.set_addressing_mode(true, false);
    // Address 5 is IOCON of bank A, which this emulator cannot write.
    assert!(!m.write_is_supported(&[5, 0x00, 0x00]));
    // Address 6 is GPPU of bank A: both values land there, the second wins.
    write(&mut m, &[6, 0xFF, 0x0F]);
    assert_eq!(m.selected_address(), 6);
    for i in 0..8 {
        assert_eq!(m.pin_state(i).pull_up_enabled, i < 4);
    }
    for i in 8..16 {
        assert!(!m.pin_state(i).pull_up_enabled);
    }
}

#[test]
fn iodir_round_trip() {
    let mut m = chip();
    write(&mut m, &[0, 0b0000_1111]);
    write(&mut m, &[0]);
    assert_eq!(read(&mut m, 1), vec![0b0000_1111]);
}

#[test]
fn gppu_round_trip_bank_b() {
    let mut m = chip();
    write(&mut m, &[13, 0b1010_0101]);
    write(&mut m, &[13]);
    assert_eq!(read(&mut m, 1), vec![0b1010_0101]);
}

#[test]
fn output_latch_visible_regardless_of_line() {
    let mut m = chip();
    // Pin A0 output, its latch high, its line low.
    write(&mut m, &[0, 0b1111_1110]);
    write(&mut m, &[18, 0b0000_0001]);
    write(&mut m, &[18]);
    assert_eq!(read(&mut m, 1)[0] & 1, 1);
    // Input again: the bit follows the line.
    write(&mut m, &[0, 0xFF]);
    write(&mut m, &[18]);
    assert_eq!(read(&mut m, 1)[0] & 1, 0);
}

#[test]
fn olat_reads_like_gpio() {
    let mut levels = [false; 16];
    levels[1] = true;
    let mut m = chip_with_levels(levels);
    write(&mut m, &[0, 0b1111_1110]);
    write(&mut m, &[20, 0b0000_0001]);
    write(&mut m, &[20]);
    assert_eq!(read(&mut m, 1), vec![0b0000_0011]);
}

#[test]
fn input_pins_report_their_lines() {
    let mut levels = [false; 16];
    levels[0] = true;
    levels[3] = true;
    levels[9] = true;
    let mut m = chip_with_levels(levels);
    write(&mut m, &[18]);
    assert_eq!(read(&mut m, 2), vec![0b0000_1001, 0b0000_0010]);
    // Pin A0 as an output with a low latch reads low even though its line is high.
    write(&mut m, &[0, 0b1111_1110]);
    write(&mut m, &[18]);
    assert_eq!(read(&mut m, 1), vec![0b0000_1000]);
}

#[test]
fn latch_kept_while_input() {
    let mut m = chip();
    write(&mut m, &[20, 0b0000_0100]);
    assert!(m.pin_state(2).output_latch);
    assert_eq!(m.pin_state(2).io_direction, IoDirection::Input);
    assert_eq!(m.pin(2).state, m.pin_state(2));
    write(&mut m, &[0, 0b1111_1011]);
    assert_eq!(m.pin(2).state.io_direction, IoDirection::Output);
    assert!(m.pin(2).state.output_latch);
}

#[test]
fn only_changed_pins_are_configured() {
    let mut m = chip();
    write(&mut m, &[0, 0xFF]);
    for i in 0..16 {
        assert_eq!(m.pin(i).configure_calls, 1);
    }
    write(&mut m, &[0, 0b1111_1110]);
    assert_eq!(m.pin(0).configure_calls, 2);
    for i in 1..16 {
        assert_eq!(m.pin(i).configure_calls, 1);
    }
    assert_eq!(m.pin(0).state.io_direction, IoDirection::Output);
}

#[test]
fn invalid_address_is_skipped_but_pointer_advances() {
    let mut m = chip();
    write(&mut m, &[30, 0x00]);
    assert!(is_power_on_pins(&m));
    assert_eq!(m.selected_address(), 31);
}

fn is_power_on_pins(m: &Mcp23017<SimulatedPin>) -> bool {
    (0..16).all(|i| m.pin_state(i) == PinState::power_on())
}

#[test]
fn read_of_invalid_address_leaves_byte() {
    let mut m = chip();
    write(&mut m, &[40]);
    let mut buffer = [0x5Au8; 2];
    m.prepare_read_buffer(&mut buffer);
    assert_eq!(buffer, [0x5A, 0x5A]);
}

#[test]
fn unimplemented_registers_are_reported() {
    let m = chip();
    assert!(!m.write_is_supported(&[2, 0x00]));
    assert!(m.write_is_supported(&[2]));
    assert!(m.write_is_supported(&[]));
    let mut m = chip();
    write(&mut m, &[10]);
    assert!(!m.read_is_supported(1));
    assert!(m.read_is_supported(0));
    // IOCON of bank B.
    write(&mut m, &[11]);
    assert!(!m.read_is_supported(2));
}

#[test]
fn empty_write_changes_nothing() {
    let mut m = chip();
    write(&mut m, &[3]);
    m.process_write_transaction(&[]);
    assert_eq!(m.selected_address(), 3);
}

#[test]
fn reset_restores_defaults() {
    let mut m = chip();
    m.set_addressing_mode(false, true);
    write(&mut m, &[0, 0x00, 0xFF]);
    write(&mut m, &[18, 0x12, 0x34]);
    m.set_addressing_mode(true, true);
    assert!(!is_power_on(&m));
    assert_eq!(m.awaited_reset_transition(), ResetLineWait::Low);
    assert_eq!(
        m.process_reset_line(ResetLineEvent::WentLow { at_micros: 100 }),
        ResetDecision::Pending
    );
    assert_eq!(m.awaited_reset_transition(), ResetLineWait::High);
    assert_eq!(
        m.process_reset_line(ResetLineEvent::WentHigh { at_micros: 100 + MIN_RESET_PULSE_MICROS }),
        ResetDecision::Reset
    );
    assert!(is_power_on(&m));
    for i in 0..16 {
        assert_eq!(m.pin(i).state, PinState::power_on());
    }
    assert_eq!(m.awaited_reset_transition(), ResetLineWait::Low);
}

#[test]
fn short_pulse_is_ignored() {
    let mut m = chip();
    write(&mut m, &[0, 0x0F, 0xF0]);
    write(&mut m, &[12, 0x33]);
    let before: Vec<PinState> = (0..16).map(|i| m.pin_state(i)).collect();
    let address = m.selected_address();
    m.process_reset_line(ResetLineEvent::WentLow { at_micros: 500 });
    assert_eq!(
        m.process_reset_line(ResetLineEvent::WentHigh { at_micros: 500 }),
        ResetDecision::TooShort { low_micros: 0 }
    );
    let after: Vec<PinState> = (0..16).map(|i| m.pin_state(i)).collect();
    assert_eq!(before, after);
    assert_eq!(m.selected_address(), address);
}

#[test]
fn reset_filter_steps() {
    let mut f = ResetFilter::new();
    assert_eq!(f.awaited(), ResetLineWait::Low);
    assert_eq!(f.on_event(ResetLineEvent::WentHigh { at_micros: 3 }), ResetDecision::Pending);
    assert_eq!(f.on_event(ResetLineEvent::WentLow { at_micros: 10 }), ResetDecision::Pending);
    assert_eq!(f.low_since, Some(10));
    assert_eq!(f.on_event(ResetLineEvent::WentLow { at_micros: 12 }), ResetDecision::Pending);
    assert_eq!(f.low_since, Some(10));
    assert_eq!(f.on_event(ResetLineEvent::WentHigh { at_micros: 25 }), ResetDecision::Reset);
    assert_eq!(f.low_since, None);
    f.on_event(ResetLineEvent::WentLow { at_micros: 30 });
    assert_eq!(
        f.on_event(ResetLineEvent::WentHigh { at_micros: 20 }),
        ResetDecision::TooShort { low_micros: 0 }
    );
}

#[test]
fn confirm_advances_by_bytes_read_only() {
    let mut m = chip();
    write(&mut m, &[0]);
    let mut buffer = [0u8; 6];
    assert!(m.read_is_supported(6));
    m.prepare_read_buffer(&mut buffer);
    assert_eq!(m.selected_address(), 0);
    m.confirm_bytes_read(3);
    assert_eq!(m.selected_address(), 1);
    // Confirming nothing changes nothing; the other three bytes stay prepared.
    m.confirm_bytes_read(0);
    assert_eq!(m.selected_address(), 1);
    m.confirm_bytes_read(3);
    assert_eq!(m.selected_address(), 0);
    // Now the prepared read is used up.
    m.confirm_bytes_read(3);
    assert_eq!(m.selected_address(), 0);
}

#[test]
fn confirmations_add_up() {
    let mut split = chip();
    split.set_addressing_mode(false, true);
    write(&mut split, &[12]);
    let mut buffer = [0u8; 4];
    split.prepare_read_buffer(&mut buffer[..2]);
    split.confirm_bytes_read(1);
    split.confirm_bytes_read(1);
    let mut whole = chip();
    whole.set_addressing_mode(false, true);
    write(&mut whole, &[12]);
    whole.prepare_read_buffer(&mut buffer[..2]);
    whole.confirm_bytes_read(2);
    assert_eq!(split.selected_address(), 14);
    assert_eq!(whole.selected_address(), 14);
}

#[test]
fn a_write_ends_a_prepared_read() {
    let mut m = chip();
    write(&mut m, &[0]);
    let mut buffer = [0u8; 4];
    m.prepare_read_buffer(&mut buffer);
    write(&mut m, &[12]);
    m.confirm_bytes_read(4);
    assert_eq!(m.selected_address(), 12);
}

#[test]
fn reset_configures_every_pin_once() {
    let mut m = chip();
    write(&mut m, &[0, 0x0F]);
    m.reset();
    assert_eq!(m.pin(0).configure_calls, 2);
    assert_eq!(m.pin(4).configure_calls, 3);
    assert_eq!(m.pin(12).configure_calls, 2);
}

#[test]
fn confirm_in_cycle_mode_counts_steps() {
    let mut m = chip();
    m.set_addressing_mode(false, true);
    write(&mut m, &[12]);
    let mut buffer = [0u8; 2];
    m.prepare_read_buffer(&mut buffer);
    m.confirm_bytes_read(1);
    assert_eq!(m.selected_address(), 13);
}

#[test]
fn confirm_is_bounded_by_prepared_length() {
    let mut m = chip();
    m.set_addressing_mode(false, true);
    write(&mut m, &[0]);
    let mut buffer = [0u8; 2];
    m.prepare_read_buffer(&mut buffer);
    m.confirm_bytes_read(10);
    assert_eq!(m.selected_address(), 2);
}

#[test]
fn sequential_read_spans_registers() {
    let mut m = chip();
    m.set_addressing_mode(false, true);
    write(&mut m, &[0, 0x0F, 0xF0]);
    write(&mut m, &[0]);
    assert_eq!(read(&mut m, 2), vec![0x0F, 0xF0]);
    assert_eq!(m.selected_address(), 2);
}

#[test]
fn toggle_read_alternates_banks() {
    let mut m = chip();
    write(&mut m, &[12, 0x11, 0x22]);
    write(&mut m, &[12]);
    assert_eq!(read(&mut m, 3), vec![0x11, 0x22, 0x11]);
    assert_eq!(m.selected_address(), 13);
}

#[test]
fn gpio_value_combines_latches_and_levels() {
    let mut m = chip();
    write(&mut m, &[0, 0b1111_0000]);
    write(&mut m, &[18, 0b0000_0101]);
    let levels = [true, true, true, true, false, true, false, true];
    assert_eq!(m.gpio_value(AB::A, &levels), 0b1010_0101);
    assert_eq!(m.gpio_value(AB::B, &levels), 0b1010_1111);
}

#[test]
fn register_map_without_bank_mode() {
    assert_eq!(
        register_from_addr(0, false),
        Some(Register { register_type: RegisterType::IODIR, ab: AB::A })
    );
    assert_eq!(
        register_from_addr(13, false),
        Some(Register { register_type: RegisterType::GPPU, ab: AB::B })
    );
    assert_eq!(
        register_from_addr(21, false),
        Some(Register { register_type: RegisterType::OLAT, ab: AB::B })
    );
    assert_eq!(register_from_addr(22, false), None);
    assert_eq!(register_from_addr(255, false), None);
}

#[test]
fn register_map_with_bank_mode() {
    assert_eq!(
        register_from_addr(5, true),
        Some(Register { register_type: RegisterType::IOCON, ab: AB::A })
    );
    assert_eq!(
        register_from_addr(10, true),
        Some(Register { register_type: RegisterType::OLAT, ab: AB::A })
    );
    assert_eq!(
        register_from_addr(11, true),
        Some(Register { register_type: RegisterType::IODIR, ab: AB::B })
    );
    assert_eq!(
        register_from_addr(20, true),
        Some(Register { register_type: RegisterType::GPIO, ab: AB::B })
    );
    assert_eq!(register_from_addr(22, true), None);
}

#[test]
fn advance_modes() {
    assert_eq!(advance_address(5, AdvanceAddressMode::Fixed), 5);
    assert_eq!(advance_address(4, AdvanceAddressMode::Toggle), 5);
    assert_eq!(advance_address(5, AdvanceAddressMode::Toggle), 4);
    assert_eq!(advance_address(255, AdvanceAddressMode::Toggle), 254);
    assert_eq!(advance_address(20, AdvanceAddressMode::Cycle), 21);
    assert_eq!(advance_address(21, AdvanceAddressMode::Cycle), 0);
    assert_eq!(advance_address(255, AdvanceAddressMode::Cycle), 14);
    assert_eq!(AdvanceAddressMode::select(true, false), AdvanceAddressMode::Fixed);
    assert_eq!(AdvanceAddressMode::select(false, false), AdvanceAddressMode::Toggle);
    assert_eq!(AdvanceAddressMode::select(true, true), AdvanceAddressMode::Cycle);
}

#[test]
fn banks_and_pin_indices() {
    assert_eq!(AB::A.set_index(), 0);
    assert_eq!(AB::B.set_index(), 1);
    assert_eq!(AB::from_index(7), AB::A);
    assert_eq!(AB::from_index(8), AB::B);
    assert_eq!(AB::B.range(), 8..16);
    assert_eq!(AB::A.range(), 0..8);
    assert_eq!(FormatPinIndex(11).parts(), (AB::B, 3));
    assert_eq!(FormatPinIndex(2).parts(), (AB::A, 2));
}

#[test]
fn register_kinds() {
    assert_eq!(RegisterType::from_repr(9), Some(RegisterType::GPIO));
    assert_eq!(RegisterType::from_repr(11), None);
    assert!(RegisterType::OLAT.is_writable());
    assert!(RegisterType::OLAT.is_readable());
    assert!(!RegisterType::IPOL.is_readable());
    assert!(!RegisterType::INTCAP.is_writable());
}

#[test]
fn bits_of_bytes() {
    assert!(get_bit(0b1000_0001, 0));
    assert!(!get_bit(0b1000_0001, 1));
    assert!(get_bit(0b1000_0001, 7));
    assert_eq!(pack_byte(&[true, false, true, false, false, false, false, true]), 0b1000_0101);
    assert_eq!(pack_byte(&[false; 8]), 0);
    assert_eq!(pack_byte(&[true; 8]), 0xFF);
}

#[test]
fn io_direction_bits() {
    assert_eq!(IoDirection::from(true), IoDirection::Input);
    assert_eq!(IoDirection::from(false), IoDirection::Output);
    assert!(bool::from(IoDirection::Input));
    assert!(!bool::from(IoDirection::Output));
}
