//! The register map: which register an address byte names, and where the
//! address pointer goes after each byte.
use vstd::prelude::*;

verus! {

/// There are 8 GPIO pins in set A and 8 in set B.
pub const N_GPIO_PINS_PER_SET: usize = 8;

pub const N_TOTAL_GPIO_PINS: usize = 16;

/// The number of register kinds in each bank.
pub const N_REGISTER_TYPES: u8 = 11;

/// The number of register addresses, `0` to `21`.
pub const N_ADDRESSES: u8 = 22;

/// One of the two banks of eight pins.
#[derive(Debug, Clone, Copy, PartialEq, Eq, Structural)]
pub enum AB {
    A,
    B,
}

impl AB {
    pub open spec fn spec_set_index(self) -> nat {
        match self {
            AB::A => 0,
            AB::B => 1,
        }
    }

    /// The bank of pin `index` (`index / 8`).
    pub open spec fn spec_from_index(index: nat) -> AB {
        if index < 8 {
            AB::A
        } else {
            AB::B
        }
    }

    /// The index of the bank's first pin.
    pub open spec fn first_pin(self) -> nat {
        8 * self.spec_set_index()
    }

    pub fn set_index(&self) -> (r: usize)
        ensures
            r == self.spec_set_index(),
    {
        match self {
            AB::A => 0,
            AB::B => 1,
        }
    }

    pub fn from_index(index: usize) -> (r: AB)
        requires
            index < N_TOTAL_GPIO_PINS,
        ensures
            r.spec_set_index() == index / 8,
            r == AB::spec_from_index(index as nat),
    {
        if index / N_GPIO_PINS_PER_SET == 0 {
            AB::A
        } else {
            AB::B
        }
    }

    /// The indices of the bank's pins.
    pub fn range(&self) -> (r: core::ops::Range<usize>)
        ensures
            r.start == self.first_pin(),
            r.end == self.first_pin() + 8,
    {
        let i = self.set_index();
        i * N_GPIO_PINS_PER_SET..(i + 1) * N_GPIO_PINS_PER_SET
    }
}

/// A pin index, split into its bank and its place within the bank (`A0` to `B7`).
pub struct FormatPinIndex(pub usize);

impl FormatPinIndex {
    /// The bank letter and the index within the bank.
    pub fn parts(&self) -> (r: (AB, usize))
        requires
            self.0 < N_TOTAL_GPIO_PINS,
        ensures
            r.0 == AB::spec_from_index(self.0 as nat),
            r.1 == self.0 % 8,
    {
        (AB::from_index(self.0), self.0 % N_GPIO_PINS_PER_SET)
    }
}

/// The eleven register kinds, in address order.
#[derive(Debug, Clone, Copy, PartialEq, Eq, Structural)]
pub enum RegisterType {
    IODIR,
    IPOL,
    GPINTEN,
    DEFVAL,
    INTCON,
    IOCON,
    GPPU,
    INTF,
    INTCAP,
    GPIO,
    OLAT,
}

impl RegisterType {
    /// The kind at position `n` of the map, if there is one.
    pub open spec fn spec_from_repr(n: nat) -> Option<RegisterType> {
        if n == 0 {
            Some(RegisterType::IODIR)
        } else if n == 1 {
            Some(RegisterType::IPOL)
        } else if n == 2 {
            Some(RegisterType::GPINTEN)
        } else if n == 3 {
            Some(RegisterType::DEFVAL)
        } else if n == 4 {
            Some(RegisterType::INTCON)
        } else if n == 5 {
            Some(RegisterType::IOCON)
        } else if n == 6 {
            Some(RegisterType::GPPU)
        } else if n == 7 {
            Some(RegisterType::INTF)
        } else if n == 8 {
            Some(RegisterType::INTCAP)
        } else if n == 9 {
            Some(RegisterType::GPIO)
        } else if n == 10 {
            Some(RegisterType::OLAT)
        } else {
            None
        }
    }

    pub fn from_repr(n: u8) -> (r: Option<RegisterType>)
        ensures
            r == RegisterType::spec_from_repr(n as nat),
    {
        match n {
            0 => Some(RegisterType::IODIR),
            1 => Some(RegisterType::IPOL),
            2 => Some(RegisterType::GPINTEN),
            3 => Some(RegisterType::DEFVAL),
            4 => Some(RegisterType::INTCON),
            5 => Some(RegisterType::IOCON),
            6 => Some(RegisterType::GPPU),
            7 => Some(RegisterType::INTF),
            8 => Some(RegisterType::INTCAP),
            9 => Some(RegisterType::GPIO),
            10 => Some(RegisterType::OLAT),
            _ => None,
        }
    }

    /// The kinds that this emulator can write: `IODIR`, `GPPU`, `GPIO` and `OLAT`.
    pub open spec fn spec_is_writable(self) -> bool {
        self == RegisterType::IODIR || self == RegisterType::GPPU || self == RegisterType::GPIO
            || self == RegisterType::OLAT
    }

    /// The kinds that this emulator can read: `IODIR`, `GPPU`, and `GPIO`
    /// with its alias `OLAT`.
    pub open spec fn spec_is_readable(self) -> bool {
        self.spec_is_writable()
    }

    pub fn is_writable(&self) -> (r: bool)
        ensures
            r == self.spec_is_writable(),
    {
        match self {
            RegisterType::IODIR | RegisterType::GPPU | RegisterType::GPIO | RegisterType::OLAT => true,
            _ => false,
        }
    }

    pub fn is_readable(&self) -> (r: bool)
        ensures
            r == self.spec_is_readable(),
    {
        self.is_writable()
    }
}

/// A register: its kind and its bank.
#[derive(Debug, Clone, Copy, PartialEq, Eq, Structural)]
pub struct Register {
    pub register_type: RegisterType,
    pub ab: AB,
}

/// How the address pointer moves after each byte.
#[derive(Debug, Clone, Copy, PartialEq, Eq, Structural)]
pub enum AdvanceAddressMode {
    /// `IOCON.SEQOP = 0`, `IOCON.BANK = 1`: the pointer stays.
    Fixed,
    /// `IOCON.SEQOP = 0`, `IOCON.BANK = 0`: the pointer moves between the two
    /// addresses of one register.
    Toggle,
    /// `IOCON.SEQOP = 1`: the pointer runs through all addresses, `21` going to `0`.
    Cycle,
}

impl AdvanceAddressMode {
    /// The mode that the two configuration flags select.
    pub open spec fn spec_select(bank_mode: bool, sequential_mode: bool) -> AdvanceAddressMode {
        if sequential_mode {
            AdvanceAddressMode::Cycle
        } else if !bank_mode {
            AdvanceAddressMode::Toggle
        } else {
            AdvanceAddressMode::Fixed
        }
    }

    pub fn select(bank_mode: bool, sequential_mode: bool) -> (r: AdvanceAddressMode)
        ensures
            r == AdvanceAddressMode::spec_select(bank_mode, sequential_mode),
    {
        if sequential_mode {
            AdvanceAddressMode::Cycle
        } else if !bank_mode {
            AdvanceAddressMode::Toggle
        } else {
            AdvanceAddressMode::Fixed
        }
    }
}

/// The address after `current` in `mode`. In `Cycle` mode the pointer is taken
/// modulo the number of addresses, so that it never overflows.
pub open spec fn spec_advance_address(current: u8, mode: AdvanceAddressMode) -> u8 {
    match mode {
        AdvanceAddressMode::Fixed => current,
        AdvanceAddressMode::Toggle => if current % 2 == 0 {
            (current + 1) as u8
        } else {
            (current - 1) as u8
        },
        AdvanceAddressMode::Cycle => ((current + 1) % (N_ADDRESSES as int)) as u8,
    }
}

/// The address after `n` advances from `current`.
pub open spec fn spec_advance_n(current: u8, mode: AdvanceAddressMode, n: nat) -> u8
    decreases n,
{
    if n == 0 {
        current
    } else {
        spec_advance_address(spec_advance_n(current, mode, (n - 1) as nat), mode)
    }
}

pub fn advance_address(current_address: u8, mode: AdvanceAddressMode) -> (r: u8)
    ensures
        r == spec_advance_address(current_address, mode),
{
    match mode {
        AdvanceAddressMode::Fixed => current_address,
        AdvanceAddressMode::Toggle => {
            if current_address % 2 == 0 {
                current_address + 1
            } else {
                current_address - 1
            }
        },
        AdvanceAddressMode::Cycle => {
            if current_address >= N_ADDRESSES - 1 {
                ((current_address as u16 + 1) % (N_ADDRESSES as u16)) as u8
            } else {
                current_address + 1
            }
        },
    }
}

/// The register at `address`: with `bank_mode`, addresses `0..11` are bank A and
/// `11..22` bank B; without it, even addresses are bank A, odd ones bank B, and
/// the kind is `address / 2`. `None` past the map.
pub open spec fn spec_register_from_addr(address: u8, bank_mode: bool) -> Option<Register> {
    if bank_mode {
        if address < N_REGISTER_TYPES {
            Some(
                Register {
                    register_type: RegisterType::spec_from_repr(address as nat).unwrap(),
                    ab: AB::A,
                },
            )
        } else if address < N_ADDRESSES {
            Some(
                Register {
                    register_type: RegisterType::spec_from_repr(
                        (address - N_REGISTER_TYPES) as nat,
                    ).unwrap(),
                    ab: AB::B,
                },
            )
        } else {
            None
        }
    } else if address < N_ADDRESSES {
        Some(
            Register {
                register_type: RegisterType::spec_from_repr((address / 2) as nat).unwrap(),
                ab: if address % 2 == 0 {
                    AB::A
                } else {
                    AB::B
                },
            },
        )
    } else {
        None
    }
}

/// If the address is invalid, returns `None`.
pub fn register_from_addr(address: u8, bank_mode: bool) -> (r: Option<Register>)
    ensures
        r == spec_register_from_addr(address, bank_mode),
        r.is_some() <==> address < N_ADDRESSES,
{
    if bank_mode {
        if address < N_REGISTER_TYPES {
            match RegisterType::from_repr(address) {
                Some(register_type) => Some(Register { register_type, ab: AB::A }),
                None => None,
            }
        } else {
            match RegisterType::from_repr(address - N_REGISTER_TYPES) {
                Some(register_type) => Some(Register { register_type, ab: AB::B }),
                None => None,
            }
        }
    } else {
        let ab = if address % 2 == 0 {
            AB::A
        } else {
            AB::B
        };
        match RegisterType::from_repr(address / 2) {
            Some(register_type) => Some(Register { register_type, ab }),
            None => None,
        }
    }
}

} // verus!
