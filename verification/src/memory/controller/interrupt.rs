//! Interrupt registers of the CAN controller.

use vstd::prelude::*;

use crate::bits::{bit, field, get_bit, get_field, set_bit, with_bit};
use crate::memory::{ClearableFlags, Register, RegisterValue, SFRAddress};

verus! {

pub const VEC_ICODE: u32 = 0;
pub const VEC_FILHIT: u32 = 8;
pub const VEC_TXCODE: u32 = 16;
pub const VEC_RXCODE: u32 = 24;

/// C1VEC: codes of the pending interrupts of highest priority.
#[derive(Clone, Copy, Debug, PartialEq, Eq, Structural)]
pub struct InterruptCodeRegister(pub u32);

impl RegisterValue for InterruptCodeRegister {
    open spec fn bits(&self) -> u32 {
        self.0
    }

    fn from_bits(raw: u32) -> (register: Self)
        ensures
            register == InterruptCodeRegister(raw),
    {
        InterruptCodeRegister(raw)
    }

    fn into_bits(self) -> (raw: u32) {
        self.0
    }
}

impl Register for InterruptCodeRegister {
    open spec fn address() -> SFRAddress {
        SFRAddress::C1VEC
    }

    fn get_address() -> (address: SFRAddress) {
        SFRAddress::C1VEC
    }
}

impl InterruptCodeRegister {
    /// Code of the pending interrupt.
    pub fn icode(&self) -> (value: u32)
        ensures
            value == field(self.0, VEC_ICODE, 7),
    {
        get_field(self.0, VEC_ICODE, 7)
    }

    /// Number of the filter that accepted the message.
    pub fn filhit(&self) -> (value: u32)
        ensures
            value == field(self.0, VEC_FILHIT, 5),
    {
        get_field(self.0, VEC_FILHIT, 5)
    }

    /// Transmit FIFO with a pending interrupt.
    pub fn txcode(&self) -> (value: u32)
        ensures
            value == field(self.0, VEC_TXCODE, 7),
    {
        get_field(self.0, VEC_TXCODE, 7)
    }

    /// Receive FIFO with a pending interrupt.
    pub fn rxcode(&self) -> (value: u32)
        ensures
            value == field(self.0, VEC_RXCODE, 7),
    {
        get_field(self.0, VEC_RXCODE, 7)
    }
}

pub const INT_TXIF: u32 = 0;
pub const INT_RXIF: u32 = 1;
pub const INT_TBCIF: u32 = 2;
pub const INT_MODIF: u32 = 3;
pub const INT_TEFIF: u32 = 4;
pub const INT_ECCIF: u32 = 8;
pub const INT_SPICRCIF: u32 = 9;
pub const INT_TXATIF: u32 = 10;
pub const INT_RXOVIF: u32 = 11;
pub const INT_SERRIF: u32 = 12;
pub const INT_CERRIF: u32 = 13;
pub const INT_WAKIF: u32 = 14;
pub const INT_IVMIF: u32 = 15;
pub const INT_TXIE: u32 = 16;
pub const INT_RXIE: u32 = 17;
pub const INT_TBCIE: u32 = 18;
pub const INT_ECCIE: u32 = 24;
pub const INT_SPICRCIE: u32 = 25;
pub const INT_SERRIE: u32 = 28;
pub const INT_CERRIE: u32 = 29;
pub const INT_IVMIE: u32 = 31;

/// C1INT: interrupt flags and their enable bits.
#[derive(Clone, Copy, Debug, PartialEq, Eq, Structural)]
pub struct InterruptRegister(pub u32);

impl RegisterValue for InterruptRegister {
    open spec fn bits(&self) -> u32 {
        self.0
    }

    fn from_bits(raw: u32) -> (register: Self)
        ensures
            register == InterruptRegister(raw),
    {
        InterruptRegister(raw)
    }

    fn into_bits(self) -> (raw: u32) {
        self.0
    }
}

impl Register for InterruptRegister {
    open spec fn address() -> SFRAddress {
        SFRAddress::C1INT
    }

    fn get_address() -> (address: SFRAddress) {
        SFRAddress::C1INT
    }
}

impl ClearableFlags for InterruptRegister {
    open spec fn clearable() -> u32 {
        0xF00C
    }

    fn clearable_flags() -> (mask: u32) {
        0xF00C
    }
}

impl InterruptRegister {
    /// A transmit FIFO interrupt is pending.
    pub fn txif(&self) -> (value: bool)
        ensures
            value == bit(self.0, INT_TXIF),
    {
        get_bit(self.0, INT_TXIF)
    }

    /// A receive FIFO interrupt is pending.
    pub fn rxif(&self) -> (value: bool)
        ensures
            value == bit(self.0, INT_RXIF),
    {
        get_bit(self.0, INT_RXIF)
    }

    /// The time base counter overflowed.
    pub fn tbcif(&self) -> (value: bool)
        ensures
            value == bit(self.0, INT_TBCIF),
    {
        get_bit(self.0, INT_TBCIF)
    }

    /// Resets the flag INT_TBCIF.
    pub fn clear_tbcif(&mut self)
        ensures
            final(self).0 == with_bit(old(self).0, INT_TBCIF, false),
    {
        self.0 = set_bit(self.0, INT_TBCIF, false);
    }

    /// The operation mode changed.
    pub fn modif(&self) -> (value: bool)
        ensures
            value == bit(self.0, INT_MODIF),
    {
        get_bit(self.0, INT_MODIF)
    }

    /// Resets the flag INT_MODIF.
    pub fn clear_modif(&mut self)
        ensures
            final(self).0 == with_bit(old(self).0, INT_MODIF, false),
    {
        self.0 = set_bit(self.0, INT_MODIF, false);
    }

    /// A transmit event FIFO interrupt is pending.
    pub fn tefif(&self) -> (value: bool)
        ensures
            value == bit(self.0, INT_TEFIF),
    {
        get_bit(self.0, INT_TEFIF)
    }

    /// An ECC error is pending.
    pub fn eccif(&self) -> (value: bool)
        ensures
            value == bit(self.0, INT_ECCIF),
    {
        get_bit(self.0, INT_ECCIF)
    }

    /// An SPI CRC error is pending.
    pub fn spicrcif(&self) -> (value: bool)
        ensures
            value == bit(self.0, INT_SPICRCIF),
    {
        get_bit(self.0, INT_SPICRCIF)
    }

    /// Transmission attempts are exhausted.
    pub fn txatif(&self) -> (value: bool)
        ensures
            value == bit(self.0, INT_TXATIF),
    {
        get_bit(self.0, INT_TXATIF)
    }

    /// A receive FIFO overflowed.
    pub fn rxovif(&self) -> (value: bool)
        ensures
            value == bit(self.0, INT_RXOVIF),
    {
        get_bit(self.0, INT_RXOVIF)
    }

    /// A system error occurred.
    pub fn serrif(&self) -> (value: bool)
        ensures
            value == bit(self.0, INT_SERRIF),
    {
        get_bit(self.0, INT_SERRIF)
    }

    /// Resets the flag INT_SERRIF.
    pub fn clear_serrif(&mut self)
        ensures
            final(self).0 == with_bit(old(self).0, INT_SERRIF, false),
    {
        self.0 = set_bit(self.0, INT_SERRIF, false);
    }

    /// A CAN bus error occurred.
    pub fn cerrif(&self) -> (value: bool)
        ensures
            value == bit(self.0, INT_CERRIF),
    {
        get_bit(self.0, INT_CERRIF)
    }

    /// Resets the flag INT_CERRIF.
    pub fn clear_cerrif(&mut self)
        ensures
            final(self).0 == with_bit(old(self).0, INT_CERRIF, false),
    {
        self.0 = set_bit(self.0, INT_CERRIF, false);
    }

    /// The bus woke the device up.
    pub fn wakif(&self) -> (value: bool)
        ensures
            value == bit(self.0, INT_WAKIF),
    {
        get_bit(self.0, INT_WAKIF)
    }

    /// Resets the flag INT_WAKIF.
    pub fn clear_wakif(&mut self)
        ensures
            final(self).0 == with_bit(old(self).0, INT_WAKIF, false),
    {
        self.0 = set_bit(self.0, INT_WAKIF, false);
    }

    /// An invalid message occurred.
    pub fn ivmif(&self) -> (value: bool)
        ensures
            value == bit(self.0, INT_IVMIF),
    {
        get_bit(self.0, INT_IVMIF)
    }

    /// Resets the flag INT_IVMIF.
    pub fn clear_ivmif(&mut self)
        ensures
            final(self).0 == with_bit(old(self).0, INT_IVMIF, false),
    {
        self.0 = set_bit(self.0, INT_IVMIF, false);
    }

    /// Sets INT_TXIE: whether the interrupt behind INT_TXIF is enabled.
    pub fn set_txie(&mut self, value: bool)
        ensures
            final(self).0 == with_bit(old(self).0, INT_TXIE, value),
    {
        self.0 = set_bit(self.0, INT_TXIE, value);
    }

    /// Sets INT_RXIE: whether the interrupt behind INT_RXIF is enabled.
    pub fn set_rxie(&mut self, value: bool)
        ensures
            final(self).0 == with_bit(old(self).0, INT_RXIE, value),
    {
        self.0 = set_bit(self.0, INT_RXIE, value);
    }

    /// Sets INT_TBCIE: whether the interrupt behind INT_TBCIF is enabled.
    pub fn set_tbcie(&mut self, value: bool)
        ensures
            final(self).0 == with_bit(old(self).0, INT_TBCIE, value),
    {
        self.0 = set_bit(self.0, INT_TBCIE, value);
    }

    /// Sets INT_ECCIE: whether the interrupt behind INT_ECCIF is enabled.
    pub fn set_eccie(&mut self, value: bool)
        ensures
            final(self).0 == with_bit(old(self).0, INT_ECCIE, value),
    {
        self.0 = set_bit(self.0, INT_ECCIE, value);
    }

    /// Sets INT_SPICRCIE: whether the interrupt behind INT_SPICRCIF is enabled.
    pub fn set_spicrcie(&mut self, value: bool)
        ensures
            final(self).0 == with_bit(old(self).0, INT_SPICRCIE, value),
    {
        self.0 = set_bit(self.0, INT_SPICRCIE, value);
    }

    /// Sets INT_SERRIE: whether the interrupt behind INT_SERRIF is enabled.
    pub fn set_serrie(&mut self, value: bool)
        ensures
            final(self).0 == with_bit(old(self).0, INT_SERRIE, value),
    {
        self.0 = set_bit(self.0, INT_SERRIE, value);
    }

    /// Sets INT_CERRIE: whether the interrupt behind INT_CERRIF is enabled.
    pub fn set_cerrie(&mut self, value: bool)
        ensures
            final(self).0 == with_bit(old(self).0, INT_CERRIE, value),
    {
        self.0 = set_bit(self.0, INT_CERRIE, value);
    }

    /// Sets INT_IVMIE: whether the interrupt behind INT_IVMIF is enabled.
    pub fn set_ivmie(&mut self, value: bool)
        ensures
            final(self).0 == with_bit(old(self).0, INT_IVMIE, value),
    {
        self.0 = set_bit(self.0, INT_IVMIE, value);
    }
}

/// C1RXIF: receive FIFOs with a pending interrupt, one bit per FIFO.
#[derive(Clone, Copy, Debug, PartialEq, Eq, Structural)]
pub struct RxInterruptStatusRegister(pub u32);

impl RegisterValue for RxInterruptStatusRegister {
    open spec fn bits(&self) -> u32 {
        self.0
    }

    fn from_bits(raw: u32) -> (register: Self)
        ensures
            register == RxInterruptStatusRegister(raw),
    {
        RxInterruptStatusRegister(raw)
    }

    fn into_bits(self) -> (raw: u32) {
        self.0
    }
}

impl Register for RxInterruptStatusRegister {
    open spec fn address() -> SFRAddress {
        SFRAddress::C1RXIF
    }

    fn get_address() -> (address: SFRAddress) {
        SFRAddress::C1RXIF
    }
}

/// C1RXOVIF: receive FIFOs that overflowed, one bit per FIFO.
#[derive(Clone, Copy, Debug, PartialEq, Eq, Structural)]
pub struct RxOverflowInterruptStatusRegister(pub u32);

impl RegisterValue for RxOverflowInterruptStatusRegister {
    open spec fn bits(&self) -> u32 {
        self.0
    }

    fn from_bits(raw: u32) -> (register: Self)
        ensures
            register == RxOverflowInterruptStatusRegister(raw),
    {
        RxOverflowInterruptStatusRegister(raw)
    }

    fn into_bits(self) -> (raw: u32) {
        self.0
    }
}

impl Register for RxOverflowInterruptStatusRegister {
    open spec fn address() -> SFRAddress {
        SFRAddress::C1RXOVIF
    }

    fn get_address() -> (address: SFRAddress) {
        SFRAddress::C1RXOVIF
    }
}

/// C1TXIF: transmit FIFOs with a pending interrupt, one bit per FIFO.
#[derive(Clone, Copy, Debug, PartialEq, Eq, Structural)]
pub struct TxInterruptStatusRegister(pub u32);

impl RegisterValue for TxInterruptStatusRegister {
    open spec fn bits(&self) -> u32 {
        self.0
    }

    fn from_bits(raw: u32) -> (register: Self)
        ensures
            register == TxInterruptStatusRegister(raw),
    {
        TxInterruptStatusRegister(raw)
    }

    fn into_bits(self) -> (raw: u32) {
        self.0
    }
}

impl Register for TxInterruptStatusRegister {
    open spec fn address() -> SFRAddress {
        SFRAddress::C1TXIF
    }

    fn get_address() -> (address: SFRAddress) {
        SFRAddress::C1TXIF
    }
}

/// C1TXATIF: transmit FIFOs with exhausted attempts, one bit per FIFO.
#[derive(Clone, Copy, Debug, PartialEq, Eq, Structural)]
pub struct TxAttemptInterruptStatusRegister(pub u32);

impl RegisterValue for TxAttemptInterruptStatusRegister {
    open spec fn bits(&self) -> u32 {
        self.0
    }

    fn from_bits(raw: u32) -> (register: Self)
        ensures
            register == TxAttemptInterruptStatusRegister(raw),
    {
        TxAttemptInterruptStatusRegister(raw)
    }

    fn into_bits(self) -> (raw: u32) {
        self.0
    }
}

impl Register for TxAttemptInterruptStatusRegister {
    open spec fn address() -> SFRAddress {
        SFRAddress::C1TXATIF
    }

    fn get_address() -> (address: SFRAddress) {
        SFRAddress::C1TXATIF
    }
}

} // verus!
