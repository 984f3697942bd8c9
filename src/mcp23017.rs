//! The emulated chip bound to its sixteen pins.
use vstd::prelude::*;
use crate::addressing::{
    advance_address, register_from_addr, spec_advance_n, AdvanceAddressMode, Register,
    RegisterType, AB, N_TOTAL_GPIO_PINS,
};
use crate::bits::{bit_of, get_bit, pack, pack_byte};
use crate::chip::{
    gpio_bits, in_bank, readable_or_none, register_bits, register_value, write_pin_bit,
    write_register_pins, writable_or_none, ChipState,
};
use crate::gpio_pin::{GpioPin, IoDirection, PinState};
use crate::reset_filter::{ResetDecision, ResetFilter, ResetLineEvent, ResetLineWait};

verus! {

/// The pins after their states went from `before` to `after`: each pin whose
/// state changed is configured once with its new state, the others are left
/// alone.
pub open spec fn reconfigured<P: GpioPin>(
    pins: Seq<P>,
    before: Seq<PinState>,
    after: Seq<PinState>,
) -> Seq<P> {
    Seq::new(
        pins.len(),
        |i: int|
            if before[i] == after[i] {
                pins[i]
            } else {
                pins[i].configured_as(after[i])
            },
    )
}

/// The pins after the value bytes `values` were written one after another,
/// from `chip`.
pub open spec fn pins_after_values<P: GpioPin>(
    pins: Seq<P>,
    chip: ChipState,
    values: Seq<u8>,
) -> Seq<P>
    decreases values.len(),
{
    if values.len() == 0 {
        pins
    } else {
        reconfigured(
            pins_after_values(pins, chip, values.drop_last()),
            chip.write_values(values.drop_last()).pins,
            chip.write_values(values).pins,
        )
    }
}

/// The pins after a write transaction of `bytes` on `chip`.
pub open spec fn pins_after_write<P: GpioPin>(pins: Seq<P>, chip: ChipState, bytes: Seq<u8>) -> Seq<
    P,
> {
    if bytes.len() == 0 {
        pins
    } else {
        pins_after_values(pins, chip.write_start(bytes), bytes.skip(1))
    }
}

/// Every pin configured once with its power-on state.
pub open spec fn pins_after_reset<P: GpioPin>(pins: Seq<P>) -> Seq<P> {
    Seq::new(pins.len(), |i: int| pins[i].configured_as(PinState::spec_power_on()))
}

/// The levels sampled so far during a read: a sampled pin is an input whose
/// level is the one its line read before the read began; a pin not sampled yet
/// is as it was.
spec fn samples_agree<P: GpioPin>(
    cache: Seq<Option<bool>>,
    pins: Seq<P>,
    before: Seq<P>,
    states: Seq<PinState>,
) -> bool {
    &&& cache.len() == N_TOTAL_GPIO_PINS
    &&& forall|i: int|
        0 <= i < N_TOTAL_GPIO_PINS ==> match #[trigger] cache[i] {
            Some(level) => level == before[i].level() && states[i].io_direction
                == IoDirection::Input,
            None => pins[i] == before[i],
        }
}

/// An MCP23017 emulated on sixteen pins of type `P`.
pub struct Mcp23017<P: GpioPin> {
    gpio_pins: Vec<P>,
    /// Watches the reset line; a microcontroller's own RESET pin can be used instead.
    reset: ResetFilter,
    bank_mode: bool,
    sequential_mode: bool,
    selected_address: u8,
    pin_states: [PinState; 16],
    pending_read: usize,
}

impl<P: GpioPin> View for Mcp23017<P> {
    type V = ChipState;

    closed spec fn view(&self) -> ChipState {
        ChipState {
            bank_mode: self.bank_mode,
            sequential_mode: self.sequential_mode,
            selected_address: self.selected_address,
            pins: self.pin_states@,
            pending_read: self.pending_read as nat,
        }
    }
}

impl<P: GpioPin> Mcp23017<P> {
    /// The bound pins, bank A first.
    pub closed spec fn pins(&self) -> Seq<P> {
        self.gpio_pins@
    }

    /// The level that each pin's line reads, bank A first.
    pub open spec fn levels(&self) -> Seq<bool> {
        Seq::new(N_TOTAL_GPIO_PINS as nat, |i: int| self.pins()[i].level())
    }

    pub closed spec fn reset_filter(&self) -> ResetFilter {
        self.reset
    }

    /// Sixteen pins, each configured as the chip's state says.
    pub open spec fn wf(&self) -> bool {
        &&& self.pins().len() == N_TOTAL_GPIO_PINS
        &&& self@.pins.len() == N_TOTAL_GPIO_PINS
        &&& forall|i: int|
            0 <= i < N_TOTAL_GPIO_PINS ==> #[trigger] self.pins()[i].configuration() == self@.pins[i]
    }

    /// Binds the chip to its pins (bank A first, in the given order) and brings
    /// it to its power-on state, configuring each pin once.
    pub fn new(gpio_pins: Vec<P>) -> (r: Self)
        requires
            gpio_pins@.len() == N_TOTAL_GPIO_PINS,
        ensures
            r.wf(),
            r@ == ChipState::power_on(),
            r.pins() == pins_after_reset(gpio_pins@),
            r.reset_filter().low_since.is_none(),
    {
        let mut s = Mcp23017 {
            gpio_pins,
            reset: ResetFilter::new(),
            bank_mode: false,
            sequential_mode: false,
            selected_address: 0,
            pin_states: [PinState::power_on();16],
            pending_read: 0,
        };
        s.reset();
        s
    }

    /// Brings every register and flag back to its power-on value and configures
    /// every pin again, once, whatever its state was.
    pub fn reset(&mut self)
        requires
            old(self).pins().len() == N_TOTAL_GPIO_PINS,
        ensures
            final(self).wf(),
            final(self)@ == ChipState::power_on(),
            final(self).pins() == pins_after_reset(old(self).pins()),
            final(self).reset_filter() == old(self).reset_filter(),
    {
        self.bank_mode = false;
        self.sequential_mode = false;
        self.selected_address = 0;
        self.pending_read = 0;
        let mut i: usize = 0;
        while i < N_TOTAL_GPIO_PINS
            invariant
                i <= N_TOTAL_GPIO_PINS,
                self.gpio_pins@.len() == N_TOTAL_GPIO_PINS,
                forall|j: int| 0 <= j < i ==> #[trigger] self.pin_states@[j] == PinState::spec_power_on(),
                forall|j: int| 0 <= j < i ==> #[trigger] self.gpio_pins@[j].configuration() == self.pin_states@[j],
                forall|j: int|
                    0 <= j < N_TOTAL_GPIO_PINS ==> #[trigger] self.gpio_pins@[j] == if j < i {
                        old(self).gpio_pins@[j].configured_as(PinState::spec_power_on())
                    } else {
                        old(self).gpio_pins@[j]
                    },
                self.bank_mode == false,
                self.sequential_mode == false,
                self.selected_address == 0,
                self.pending_read == 0,
                self.reset == old(self).reset,
            decreases N_TOTAL_GPIO_PINS - i,
        {
            self.pin_states[i] = PinState::power_on();
            self.update_pin(i);
            i = i + 1;
        }
        assert(self@.pins =~= ChipState::power_on().pins);
        assert(self.gpio_pins@ =~= pins_after_reset(old(self).gpio_pins@));
    }

    /// Pushes the state of pin `i` to the pin.
    fn update_pin(&mut self, i: usize)
        requires
            i < N_TOTAL_GPIO_PINS,
            old(self).gpio_pins@.len() == N_TOTAL_GPIO_PINS,
        ensures
            final(self).gpio_pins@ == old(self).gpio_pins@.update(
                i as int,
                old(self).gpio_pins@[i as int].configured_as(old(self).pin_states@[i as int]),
            ),
            final(self).gpio_pins@[i as int].configuration() == old(self).pin_states@[i as int],
            final(self).pin_states == old(self).pin_states,
            final(self).reset == old(self).reset,
            final(self).bank_mode == old(self).bank_mode,
            final(self).sequential_mode == old(self).sequential_mode,
            final(self).selected_address == old(self).selected_address,
            final(self).pending_read == old(self).pending_read,
    {
        let s = self.pin_states[i];
        self.gpio_pins[i].configure(s.io_direction, s.pull_up_enabled, s.output_latch);
    }

    fn advance_address_mode(&self) -> (r: AdvanceAddressMode)
        ensures
            r == self@.mode(),
    {
        AdvanceAddressMode::select(self.bank_mode, self.sequential_mode)
    }

    fn advance_address(&mut self)
        ensures
            final(self)@ == old(self)@.pointing_at(old(self)@.address_at(1)),
            final(self).gpio_pins == old(self).gpio_pins,
            final(self).reset == old(self).reset,
    {
        let mode = self.advance_address_mode();
        self.selected_address = advance_address(self.selected_address, mode);
        proof {
            reveal_with_fuel(spec_advance_n, 2);
        }
        assert(self@.pins =~= old(self)@.pins);
    }

    /// Writes `value` to `register`: bit `k` goes to pin `k` of its bank. Each
    /// pin whose state changes is configured once; the others are left alone.
    fn write_register(&mut self, register: Register, value: u8)
        requires
            old(self).wf(),
            register.register_type.spec_is_writable(),
        ensures
            final(self).wf(),
            final(self)@ == (ChipState {
                pins: write_register_pins(old(self)@.pins, register, value),
                ..old(self)@
            }),
            final(self).reset == old(self).reset,
            final(self).pins() == reconfigured(old(self).pins(), old(self)@.pins, final(self)@.pins),
    {
        let first = register.ab.set_index() * 8;
        let mut k: usize = 0;
        while k < 8
            invariant
                k <= 8,
                first == register.ab.first_pin(),
                register.register_type.spec_is_writable(),
                self.wf(),
                self.reset == old(self).reset,
                self.bank_mode == old(self).bank_mode,
                self.sequential_mode == old(self).sequential_mode,
                self.selected_address == old(self).selected_address,
                self.pending_read == old(self).pending_read,
                forall|i: int|
                    0 <= i < N_TOTAL_GPIO_PINS ==> #[trigger] self.pin_states@[i] == if first <= i
                        < first + k {
                        write_pin_bit(
                            old(self)@.pins[i],
                            register.register_type,
                            bit_of(value as nat, (i - first) as nat),
                        )
                    } else {
                        old(self)@.pins[i]
                    },
                self.gpio_pins@ == reconfigured(old(self).gpio_pins@, old(self)@.pins, self.pin_states@),
            decreases 8 - k,
        {
            let i = first + k;
            let bit = get_bit(value, k as u8);
            let current = self.pin_states[i];
            let updated = match register.register_type {
                RegisterType::IODIR => PinState { io_direction: IoDirection::from(bit), ..current },
                RegisterType::GPPU => PinState { pull_up_enabled: bit, ..current },
                _ => PinState { output_latch: bit, ..current },
            };
            let ghost pins_before = self.gpio_pins@;
            if updated != current {
                self.pin_states[i] = updated;
                self.update_pin(i);
                assert(self.gpio_pins@ =~= reconfigured(
                    old(self).gpio_pins@,
                    old(self)@.pins,
                    self.pin_states@,
                ));
            }
            k = k + 1;
        }
        assert(self@.pins =~= write_register_pins(old(self)@.pins, register, value));
    }

    /// What `GPIO` of bank `ab` reads when its lines are at `levels`: the latch
    /// of each output pin, the level of each input pin.
    pub fn gpio_value(&self, ab: AB, levels: &[bool; 8]) -> (r: u8)
        requires
            self.wf(),
        ensures
            r as nat == pack(gpio_bits(self@.pins, ab, levels@)),
    {
        let first = ab.set_index() * 8;
        let mut bits = [false;8];
        let mut k: usize = 0;
        while k < 8
            invariant
                k <= 8,
                first == ab.first_pin(),
                self.wf(),
                forall|j: int| 0 <= j < k ==> #[trigger] bits@[j] == gpio_bits(self@.pins, ab, levels@)[j],
            decreases 8 - k,
        {
            let p = self.pin_states[first + k];
            bits[k] = match p.io_direction {
                IoDirection::Output => p.output_latch,
                IoDirection::Input => levels[k],
            };
            k = k + 1;
        }
        assert(bits@ =~= gpio_bits(self@.pins, ab, levels@));
        pack_byte(&bits)
    }

    /// Reads `register`. `GPIO` (or `OLAT`) samples the line of each input pin
    /// of the bank, unless `samples` holds its level from earlier in the read;
    /// the levels sampled are added to `samples`.
    fn read_register(
        &mut self,
        register: Register,
        samples: &mut [Option<bool>; 16],
        Ghost(before): Ghost<Seq<P>>,
    ) -> (r: u8)
        requires
            old(self).wf(),
            register.register_type.spec_is_readable(),
            before.len() == N_TOTAL_GPIO_PINS,
            samples_agree(old(samples)@, old(self).pins(), before, old(self)@.pins),
        ensures
            final(self).wf(),
            final(self)@ == old(self)@,
            final(self).reset == old(self).reset,
            samples_agree(final(samples)@, final(self).pins(), before, old(self)@.pins),
            forall|i: int|
                0 <= i < N_TOTAL_GPIO_PINS && #[trigger] final(samples)@[i] is Some ==> old(
                    samples,
                )@[i] is Some || ((register.register_type == RegisterType::GPIO
                    || register.register_type == RegisterType::OLAT) && in_bank(register.ab, i)),
            r as nat == register_value(
                old(self)@.pins,
                register,
                Seq::new(N_TOTAL_GPIO_PINS as nat, |i: int| before[i].level()),
            ),
    {
        let first = register.ab.set_index() * 8;
        let ghost all_levels = Seq::new(N_TOTAL_GPIO_PINS as nat, |i: int| before[i].level());
        match register.register_type {
            RegisterType::GPIO | RegisterType::OLAT => {
                let mut levels = [false;8];
                let mut k: usize = 0;
                while k < 8
                    invariant
                        k <= 8,
                        first == register.ab.first_pin(),
                        before.len() == N_TOTAL_GPIO_PINS,
                        register.register_type == RegisterType::GPIO || register.register_type
                            == RegisterType::OLAT,
                        self.wf(),
                        self@ == old(self)@,
                        self.reset == old(self).reset,
                        samples_agree(samples@, self.pins(), before, old(self)@.pins),
                        forall|i: int|
                            0 <= i < N_TOTAL_GPIO_PINS && #[trigger] samples@[i] is Some ==> old(
                                samples,
                            )@[i] is Some || in_bank(register.ab, i),
                        forall|j: int|
                            0 <= j < k && self@.pins[first + j].io_direction == IoDirection::Input
                                ==> #[trigger] levels@[j] == before[first + j].level(),
                    decreases 8 - k,
                {
                    let i = first + k;
                    if self.pin_states[i] == (PinState {
                        io_direction: IoDirection::Input,
                        ..self.pin_states[i]
                    }) {
                        match samples[i] {
                            Some(level) => {
                                levels[k] = level;
                            },
                            None => {
                                let level = self.gpio_pins[i].is_high();
                                samples[i] = Some(level);
                                levels[k] = level;
                            },
                        }
                    }
                    k = k + 1;
                }
                let r = self.gpio_value(register.ab, &levels);
                assert(gpio_bits(self@.pins, register.ab, levels@) =~= gpio_bits(
                    self@.pins,
                    register.ab,
                    all_levels.subrange(first as int, first + 8),
                ));
                r
            },
            _ => {
                let mut bits = [false;8];
                let mut k: usize = 0;
                while k < 8
                    invariant
                        k <= 8,
                        first == register.ab.first_pin(),
                        self.wf(),
                        register.register_type == RegisterType::IODIR || register.register_type
                            == RegisterType::GPPU,
                        forall|j: int|
                            0 <= j < k ==> #[trigger] bits@[j] == register_bits(self@.pins, register)[j],
                    decreases 8 - k,
                {
                    let p = self.pin_states[first + k];
                    bits[k] = match register.register_type {
                        RegisterType::IODIR => bool::from(p.io_direction),
                        _ => p.pull_up_enabled,
                    };
                    k = k + 1;
                }
                assert(bits@ =~= register_bits(self@.pins, register));
                pack_byte(&bits)
            },
        }
    }

    /// Handles a write transaction: the first byte becomes the address pointer;
    /// each later byte is written to the register under the pointer (skipped if
    /// the address names none), and the pointer advances after each.
    pub fn process_write_transaction(&mut self, bytes: &[u8])
        requires
            old(self).wf(),
            old(self)@.write_supported(bytes@),
        ensures
            final(self).wf(),
            final(self)@ == old(self)@.after_write(bytes@),
            final(self).pins() == pins_after_write(old(self).pins(), old(self)@, bytes@),
            final(self).reset_filter() == old(self).reset_filter(),
    {
        if bytes.len() == 0 {
            return;
        }
        self.selected_address = bytes[0];
        self.pending_read = 0;
        let ghost start = self@;
        let ghost values = bytes@.skip(1);
        assert(start == old(self)@.write_start(bytes@));
        assert(values.take(0) =~= Seq::<u8>::empty());
        let mut n: usize = 1;
        while n < bytes.len()
            invariant
                1 <= n <= bytes.len(),
                self.wf(),
                start == old(self)@.write_start(bytes@),
                values == bytes@.skip(1),
                self@ == start.write_values(values.take(n - 1)),
                self@.selected_address == start.address_at((n - 1) as nat),
                self.bank_mode == old(self).bank_mode,
                self.sequential_mode == old(self).sequential_mode,
                self.pending_read == 0,
                self.reset == old(self).reset,
                old(self)@.write_supported(bytes@),
                self.gpio_pins@ == pins_after_values(old(self).gpio_pins@, start, values.take(n - 1)),
            decreases bytes.len() - n,
        {
            let byte = bytes[n];
            let ghost before = self@;
            assert(values.take(n as int).drop_last() =~= values.take(n - 1));
            assert(values.take(n as int).last() == byte);
            assert(writable_or_none(old(self)@.pointing_at(bytes@[0]).register_at((n - 1) as nat)));
            assert(start.register_at((n - 1) as nat) == old(self)@.pointing_at(bytes@[0]).register_at(
                (n - 1) as nat,
            ));
            match register_from_addr(self.selected_address, self.bank_mode) {
                Some(register) => self.write_register(register, byte),
                None => {
                    assert(self.gpio_pins@ =~= reconfigured(
                        self.gpio_pins@,
                        before.pins,
                        before.pins,
                    ));
                },
            }
            self.advance_address();
            proof {
                reveal_with_fuel(spec_advance_n, 2);
                assert(self@ == start.write_values(values.take(n as int)));
            }
            n = n + 1;
        }
        assert(values.take(bytes.len() - 1) =~= values);
    }

    /// Fills `buffer` with what a read from the address pointer returns, byte by
    /// byte, advancing a copy of the pointer; the pointer itself stays until
    /// `confirm_bytes_read`. The line of each input pin is sampled at most once,
    /// so every byte reads the lines as they were when the read began. A byte
    /// whose address names no register is left as it was.
    pub fn prepare_read_buffer(&mut self, buffer: &mut [u8])
        requires
            old(self).wf(),
            old(self)@.read_supported(old(buffer)@.len()),
        ensures
            final(self).wf(),
            final(self)@ == old(self)@.after_prepare(old(buffer)@.len()),
            final(self).reset_filter() == old(self).reset_filter(),
            final(buffer)@.len() == old(buffer)@.len(),
            forall|k: int|
                0 <= k < old(buffer)@.len() ==> old(self)@.read_fills(
                    k as nat,
                    old(self).levels(),
                    old(buffer)@[k],
                    #[trigger] final(buffer)@[k],
                ),
            forall|i: int|
                0 <= i < N_TOTAL_GPIO_PINS && !old(self)@.read_samples(old(buffer)@.len(), i)
                    ==> #[trigger] final(self).pins()[i] == old(self).pins()[i],
    {
        let mut address = self.selected_address;
        let mode = self.advance_address_mode();
        let mut samples: [Option<bool>; 16] = [None;16];
        let ghost before = self.gpio_pins@;
        assert(samples_agree(samples@, self.gpio_pins@, before, self@.pins));
        assert(old(self).levels() =~= Seq::new(
            N_TOTAL_GPIO_PINS as nat,
            |i: int| before[i].level(),
        ));
        let mut k: usize = 0;
        while k < buffer.len()
            invariant
                k <= buffer@.len(),
                buffer@.len() == old(buffer)@.len(),
                self.wf(),
                self@ == old(self)@,
                self.reset == old(self).reset,
                before == old(self).gpio_pins@,
                before.len() == N_TOTAL_GPIO_PINS,
                old(self).levels() == Seq::new(N_TOTAL_GPIO_PINS as nat, |i: int| before[i].level()),
                mode == old(self)@.mode(),
                address == old(self)@.address_at(k as nat),
                old(self)@.read_supported(old(buffer)@.len()),
                samples_agree(samples@, self.gpio_pins@, before, old(self)@.pins),
                forall|i: int|
                    0 <= i < N_TOTAL_GPIO_PINS && #[trigger] samples@[i] is Some ==> old(
                        self,
                    )@.read_samples(k as nat, i),
                forall|j: int|
                    0 <= j < k ==> old(self)@.read_fills(
                        j as nat,
                        old(self).levels(),
                        old(buffer)@[j],
                        #[trigger] buffer@[j],
                    ),
                forall|j: int| k <= j < buffer@.len() ==> #[trigger] buffer@[j] == old(buffer)@[j],
            decreases buffer@.len() - k,
        {
            assert(readable_or_none(old(self)@.register_at(k as nat)));
            let ghost samples_before = samples@;
            match register_from_addr(address, self.bank_mode) {
                Some(register) => {
                    let byte = self.read_register(register, &mut samples, Ghost(before));
                    buffer[k] = byte;
                    proof {
                        assert forall|i: int|
                            0 <= i < N_TOTAL_GPIO_PINS && #[trigger] samples@[i] is Some implies old(
                                self,
                            )@.read_samples((k + 1) as nat, i) by {
                            if samples_before[i] is Some {
                                let w = choose|w: nat| w < k && #[trigger] old(self)@.samples_at(w, i);
                                assert(old(self)@.samples_at(w, i));
                            } else {
                                assert(old(self)@.samples_at(k as nat, i));
                            }
                        }
                    }
                },
                None => {
                    proof {
                        assert forall|i: int|
                            0 <= i < N_TOTAL_GPIO_PINS && #[trigger] samples@[i] is Some implies old(
                                self,
                            )@.read_samples((k + 1) as nat, i) by {
                            let w = choose|w: nat| w < k && #[trigger] old(self)@.samples_at(w, i);
                            assert(old(self)@.samples_at(w, i));
                        }
                    }
                },
            }
            address = advance_address(address, mode);
            proof {
                reveal_with_fuel(spec_advance_n, 2);
            }
            k = k + 1;
        }
        self.pending_read = buffer.len();
        assert forall|i: int|
            0 <= i < N_TOTAL_GPIO_PINS && !old(self)@.read_samples(old(buffer)@.len(), i)
                implies #[trigger] self.gpio_pins@[i] == before[i] by {
            if samples@[i] is Some {
                assert(old(self)@.read_samples(k as nat, i));
            }
        }
    }

    /// Commits a read: advances the address pointer once for each of the
    /// `bytes_read` bytes that the bus really sent, but no further than the
    /// prepared bytes that are not confirmed yet; those that remain stay
    /// prepared.
    pub fn confirm_bytes_read(&mut self, bytes_read: usize)
        requires
            old(self).wf(),
        ensures
            final(self).wf(),
            final(self)@ == old(self)@.after_confirm(bytes_read as nat),
            final(self).pins() == old(self).pins(),
            final(self).reset_filter() == old(self).reset_filter(),
    {
        let n = if bytes_read < self.pending_read {
            bytes_read
        } else {
            self.pending_read
        };
        let remaining = self.pending_read - n;
        let mut k: usize = 0;
        while k < n
            invariant
                k <= n,
                n == if bytes_read < old(self).pending_read {
                    bytes_read
                } else {
                    old(self).pending_read
                },
                self@ == old(self)@.pointing_at(old(self)@.address_at(k as nat)),
                self.gpio_pins == old(self).gpio_pins,
                self.reset == old(self).reset,
            decreases n - k,
        {
            self.advance_address();
            proof {
                reveal_with_fuel(spec_advance_n, 2);
            }
            k = k + 1;
        }
        self.pending_read = remaining;
    }

    /// Whether `process_write_transaction` can carry out `bytes`: every value
    /// byte lands on `IODIR`, `GPPU`, `GPIO`, `OLAT` or on no register.
    pub fn write_is_supported(&self, bytes: &[u8]) -> (r: bool)
        ensures
            r == self@.write_supported(bytes@),
    {
        if bytes.len() == 0 {
            return true;
        }
        let mode = self.advance_address_mode();
        let mut address = bytes[0];
        let mut k: usize = 0;
        while k < bytes.len() - 1
            invariant
                k + 1 <= bytes@.len(),
                mode == self@.mode(),
                address == self@.pointing_at(bytes@[0]).address_at(k as nat),
                forall|j: nat|
                    j < k ==> writable_or_none(#[trigger] self@.pointing_at(bytes@[0]).register_at(j)),
            decreases bytes@.len() - k,
        {
            match register_from_addr(address, self.bank_mode) {
                Some(register) => {
                    if !register.register_type.is_writable() {
                        assert(!writable_or_none(self@.pointing_at(bytes@[0]).register_at(k as nat)));
                        return false;
                    }
                },
                None => {},
            }
            address = advance_address(address, mode);
            proof {
                reveal_with_fuel(spec_advance_n, 2);
            }
            k = k + 1;
        }
        true
    }

    /// Whether `prepare_read_buffer` can fill a buffer of `len` bytes: every
    /// byte lands on `IODIR`, `GPPU`, `GPIO`, `OLAT` or on no register.
    pub fn read_is_supported(&self, len: usize) -> (r: bool)
        ensures
            r == self@.read_supported(len as nat),
    {
        let mode = self.advance_address_mode();
        let mut address = self.selected_address;
        let mut k: usize = 0;
        while k < len
            invariant
                k <= len,
                mode == self@.mode(),
                address == self@.address_at(k as nat),
                forall|j: nat| j < k ==> readable_or_none(#[trigger] self@.register_at(j)),
            decreases len - k,
        {
            match register_from_addr(address, self.bank_mode) {
                Some(register) => {
                    if !register.register_type.is_readable() {
                        assert(!readable_or_none(self@.register_at(k as nat)));
                        return false;
                    }
                },
                None => {},
            }
            address = advance_address(address, mode);
            proof {
                reveal_with_fuel(spec_advance_n, 2);
            }
            k = k + 1;
        }
        true
    }
    /// Takes in a transition of the reset line. When it ends a low pulse of at
    /// least `MIN_RESET_PULSE_MICROS`, the chip resets; a shorter pulse changes
    /// no register.
    pub fn process_reset_line(&mut self, event: ResetLineEvent) -> (r: ResetDecision)
        requires
            old(self).wf(),
        ensures
            final(self).wf(),
            (final(self)@, final(self).reset_filter(), r) == old(self)@.reset_line_step(
                old(self).reset_filter(),
                event,
            ),
            r == ResetDecision::Reset ==> final(self).pins() == pins_after_reset(old(self).pins()),
            r != ResetDecision::Reset ==> final(self).pins() == old(self).pins(),
    {
        let decision = self.reset.on_event(event);
        match decision {
            ResetDecision::Reset => self.reset(),
            _ => {},
        }
        decision
    }

    /// The transition of the reset line to wait for next.
    pub fn awaited_reset_transition(&self) -> (r: ResetLineWait)
        ensures
            r == (if self.reset_filter().low_since.is_some() {
                ResetLineWait::High
            } else {
                ResetLineWait::Low
            }),
    {
        self.reset.awaited()
    }

    /// Sets the two addressing flags, as a write of `IOCON.BANK` and
    /// `IOCON.SEQOP` would (`IOCON` itself cannot be written here).
    pub fn set_addressing_mode(&mut self, bank_mode: bool, sequential_mode: bool)
        requires
            old(self).wf(),
        ensures
            final(self).wf(),
            final(self)@ == old(self)@.with_addressing_mode(bank_mode, sequential_mode),
            final(self).pins() == old(self).pins(),
            final(self).reset_filter() == old(self).reset_filter(),
    {
        self.bank_mode = bank_mode;
        self.sequential_mode = sequential_mode;
    }

    pub fn bank_mode(&self) -> (r: bool)
        ensures
            r == self@.bank_mode,
    {
        self.bank_mode
    }

    pub fn sequential_mode(&self) -> (r: bool)
        ensures
            r == self@.sequential_mode,
    {
        self.sequential_mode
    }

    pub fn selected_address(&self) -> (r: u8)
        ensures
            r == self@.selected_address,
    {
        self.selected_address
    }

    /// The state of pin `i` (bank A first).
    pub fn pin_state(&self, i: usize) -> (r: PinState)
        requires
            i < N_TOTAL_GPIO_PINS,
        ensures
            r == self@.pins[i as int],
    {
        self.pin_states[i]
    }

    /// The pin bound at index `i`.
    pub fn pin(&self, i: usize) -> (r: &P)
        requires
            self.wf(),
            i < N_TOTAL_GPIO_PINS,
        ensures
            *r == self.pins()[i as int],
    {
        &self.gpio_pins[i]
    }
}

} // verus!
