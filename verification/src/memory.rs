//! The device's address space: special function registers (SFRs) and message RAM.

pub mod chip;
pub mod controller;
pub mod layout;

use vstd::prelude::*;

use crate::memory::controller::fifo::FifoNumber;
use crate::memory::controller::filter::{FilterControlNumber, FilterNumber};

verus! {

/// First address of the message RAM.
pub const RAM_START: u16 = 0x400;

/// First address behind the message RAM, which holds 2 KiB.
pub const RAM_END: u16 = 0xC00;

/// The special function registers.
#[derive(Clone, Copy, Debug, PartialEq, Eq, Structural)]
pub enum SFRAddress {
    C1CON,
    C1NBTCFG,
    C1DBTCFG,
    C1TDC,
    C1TBC,
    C1TSCON,
    C1VEC,
    C1INT,
    C1RXIF,
    C1TXIF,
    C1RXOVIF,
    C1TXATIF,
    C1TEFCON,
    C1TEFSTA,
    C1TEFUA,
    C1TXQCON,
    C1TXQSTA,
    C1TXQUA,
    OSC,
    IOCON,
    C1FIFOCON(FifoNumber),
    C1FIFOSTA(FifoNumber),
    C1FIFOUA(FifoNumber),
    C1FLTCON(FilterControlNumber),
    C1FLTOBJ(FilterNumber),
    C1MASK(FilterNumber),
}

impl SFRAddress {
    /// The address of the register.
    pub open spec fn address(self) -> u16 {
        match self {
            SFRAddress::C1CON => 0x0,
            SFRAddress::C1NBTCFG => 0x4,
            SFRAddress::C1DBTCFG => 0x8,
            SFRAddress::C1TDC => 0xC,
            SFRAddress::C1TBC => 0x10,
            SFRAddress::C1TSCON => 0x14,
            SFRAddress::C1VEC => 0x18,
            SFRAddress::C1INT => 0x1C,
            SFRAddress::C1RXIF => 0x20,
            SFRAddress::C1TXIF => 0x24,
            SFRAddress::C1RXOVIF => 0x28,
            SFRAddress::C1TXATIF => 0x2C,
            SFRAddress::C1TEFCON => 0x40,
            SFRAddress::C1TEFSTA => 0x44,
            SFRAddress::C1TEFUA => 0x48,
            SFRAddress::C1TXQCON => 0x50,
            SFRAddress::C1TXQSTA => 0x54,
            SFRAddress::C1TXQUA => 0x58,
            SFRAddress::OSC => 0xE00,
            SFRAddress::IOCON => 0xE04,
            SFRAddress::C1FIFOCON(fifo) => (0x50 + 12 * fifo.index()) as u16,
            SFRAddress::C1FIFOSTA(fifo) => (0x54 + 12 * fifo.index()) as u16,
            SFRAddress::C1FIFOUA(fifo) => (0x58 + 12 * fifo.index()) as u16,
            SFRAddress::C1FLTCON(control) => (0x1D0 + 4 * control.index()) as u16,
            SFRAddress::C1FLTOBJ(filter) => (0x1F0 + 8 * filter.index()) as u16,
            SFRAddress::C1MASK(filter) => (0x1F4 + 8 * filter.index()) as u16,
        }
    }

    /// The address of the register.
    pub fn to_address(self) -> (address: u16)
        ensures
            address == self.address(),
            address <= 0xE04,
    {
        match self {
            SFRAddress::C1CON => 0x0,
            SFRAddress::C1NBTCFG => 0x4,
            SFRAddress::C1DBTCFG => 0x8,
            SFRAddress::C1TDC => 0xC,
            SFRAddress::C1TBC => 0x10,
            SFRAddress::C1TSCON => 0x14,
            SFRAddress::C1VEC => 0x18,
            SFRAddress::C1INT => 0x1C,
            SFRAddress::C1RXIF => 0x20,
            SFRAddress::C1TXIF => 0x24,
            SFRAddress::C1RXOVIF => 0x28,
            SFRAddress::C1TXATIF => 0x2C,
            SFRAddress::C1TEFCON => 0x40,
            SFRAddress::C1TEFSTA => 0x44,
            SFRAddress::C1TEFUA => 0x48,
            SFRAddress::C1TXQCON => 0x50,
            SFRAddress::C1TXQSTA => 0x54,
            SFRAddress::C1TXQUA => 0x58,
            SFRAddress::OSC => 0xE00,
            SFRAddress::IOCON => 0xE04,
            SFRAddress::C1FIFOCON(fifo) => 0x50 + 12 * fifo.number() as u16,
            SFRAddress::C1FIFOSTA(fifo) => 0x54 + 12 * fifo.number() as u16,
            SFRAddress::C1FIFOUA(fifo) => 0x58 + 12 * fifo.number() as u16,
            SFRAddress::C1FLTCON(control) => 0x1D0 + 4 * control.number() as u16,
            SFRAddress::C1FLTOBJ(filter) => 0x1F0 + 8 * filter.number() as u16,
            SFRAddress::C1MASK(filter) => 0x1F4 + 8 * filter.number() as u16,
        }
    }
}

/// Every register has an address of its own, on a word boundary and outside the message RAM.
#[verifier::rlimit(100)]
#[verifier::spinoff_prover]
pub proof fn lemma_sfr_addresses(a: SFRAddress, b: SFRAddress)
    ensures
        a.address() == b.address() <==> a == b,
        a.address() % 4 == 0,
        !(RAM_START <= a.address() < RAM_END),
{
}

/// Whether `length` bytes from `address` on lie in the message RAM.
pub open spec fn in_ram(address: int, length: int) -> bool {
    RAM_START <= address < RAM_END && address + length <= RAM_END
}

/// Whether `length` bytes from `address` on lie in the message RAM.
pub fn is_valid_ram_address(address: u32, length: usize) -> (valid: bool)
    ensures
        valid == in_ram(address as int, length as int),
{
    RAM_START as u32 <= address && address < RAM_END as u32 && length <= (RAM_END as u32
        - address) as usize
}

/// A register's contents as a typed view of a 32-bit word.
pub trait RegisterValue: Sized {
    /// The word.
    spec fn bits(&self) -> u32;

    /// The register that holds `raw`.
    fn from_bits(raw: u32) -> (register: Self)
        ensures
            register.bits() == raw,
    ;

    /// The word that the register holds.
    fn into_bits(self) -> (raw: u32)
        ensures
            raw == self.bits(),
    ;
}

/// A register that exists once.
pub trait Register: RegisterValue {
    /// Where the register is.
    spec fn address() -> SFRAddress;

    /// Where the register is.
    fn get_address() -> (address: SFRAddress)
        ensures
            address == Self::address(),
    ;
}

/// A register that exists several times, told apart by an index.
pub trait RepeatedRegister: RegisterValue {
    type Index: Copy;

    /// Where the register with the given index is.
    spec fn address_for(index: Self::Index) -> SFRAddress;

    /// Where the register with the given index is.
    fn get_address_for(index: Self::Index) -> (address: SFRAddress)
        ensures
            address == Self::address_for(index),
    ;
}

/// A register with flags that hardware sets and that are cleared by writing 0; writing 1 leaves
/// them as they are.
pub trait ClearableFlags {
    /// The bits of those flags.
    spec fn clearable() -> u32;

    /// The bits of those flags.
    fn clearable_flags() -> (mask: u32)
        ensures
            mask == Self::clearable(),
    ;
}

} // verus!
