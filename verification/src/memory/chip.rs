//! Registers of the chip around the CAN controller: the oscillator and the I/O pins.

use vstd::prelude::*;

use crate::bits::{bit, get_bit, set_bit, set_field, with_bit, with_field};
use crate::memory::{Register, RegisterValue, SFRAddress};

verus! {

pub const OSC_PLLEN: u32 = 0;
pub const OSC_OSCDIS: u32 = 2;
pub const OSC_SCLKDIV: u32 = 4;
pub const OSC_CLKODIV: u32 = 5;
pub const OSC_PLLRDY: u32 = 8;
pub const OSC_OSCRDY: u32 = 10;

/// OSC: the oscillator, its PLL and the clock output.
#[derive(Clone, Copy, Debug, PartialEq, Eq, Structural)]
pub struct OscillatorControlRegister(pub u32);

impl RegisterValue for OscillatorControlRegister {
    open spec fn bits(&self) -> u32 {
        self.0
    }

    fn from_bits(raw: u32) -> (register: Self)
        ensures
            register == OscillatorControlRegister(raw),
    {
        OscillatorControlRegister(raw)
    }

    fn into_bits(self) -> (raw: u32) {
        self.0
    }
}

impl Register for OscillatorControlRegister {
    open spec fn address() -> SFRAddress {
        SFRAddress::OSC
    }

    fn get_address() -> (address: SFRAddress) {
        SFRAddress::OSC
    }
}

impl OscillatorControlRegister {
    /// Sets OSC_PLLEN: whether the system clock comes from the ten-fold PLL.
    pub fn set_pllen(&mut self, value: bool)
        ensures
            final(self).0 == with_bit(old(self).0, OSC_PLLEN, value),
    {
        self.0 = set_bit(self.0, OSC_PLLEN, value);
    }

    /// Sets OSC_OSCDIS: whether the clock is disabled.
    pub fn set_oscdis(&mut self, value: bool)
        ensures
            final(self).0 == with_bit(old(self).0, OSC_OSCDIS, value),
    {
        self.0 = set_bit(self.0, OSC_OSCDIS, value);
    }

    /// Sets OSC_SCLKDIV: whether the system clock is divided by two.
    pub fn set_sclkdiv(&mut self, value: bool)
        ensures
            final(self).0 == with_bit(old(self).0, OSC_SCLKDIV, value),
    {
        self.0 = set_bit(self.0, OSC_SCLKDIV, value);
    }

    /// Sets OSC_CLKODIV: divisor code of the clock output.
    pub fn set_clkodiv(&mut self, value: u8)
        ensures
            final(self).0 == with_field(old(self).0, OSC_CLKODIV, 2, value as u32),
    {
        self.0 = set_field(self.0, OSC_CLKODIV, 2, value as u32);
    }

    /// Whether the PLL has locked.
    pub fn pllrdy(&self) -> (value: bool)
        ensures
            value == bit(self.0, OSC_PLLRDY),
    {
        get_bit(self.0, OSC_PLLRDY)
    }

    /// Whether the clock is running and stable.
    pub fn oscrdy(&self) -> (value: bool)
        ensures
            value == bit(self.0, OSC_OSCRDY),
    {
        get_bit(self.0, OSC_OSCRDY)
    }
}

pub const IOCON_XSTBYEN: u32 = 6;
pub const IOCON_TXCANOD: u32 = 28;
pub const IOCON_SOF: u32 = 29;
pub const IOCON_INTOD: u32 = 30;

/// IOCON: the modes of the I/O pins.
#[derive(Clone, Copy, Debug, PartialEq, Eq, Structural)]
pub struct IoControlRegister(pub u32);

impl RegisterValue for IoControlRegister {
    open spec fn bits(&self) -> u32 {
        self.0
    }

    fn from_bits(raw: u32) -> (register: Self)
        ensures
            register == IoControlRegister(raw),
    {
        IoControlRegister(raw)
    }

    fn into_bits(self) -> (raw: u32) {
        self.0
    }
}

impl Register for IoControlRegister {
    open spec fn address() -> SFRAddress {
        SFRAddress::IOCON
    }

    fn get_address() -> (address: SFRAddress) {
        SFRAddress::IOCON
    }
}

impl IoControlRegister {
    /// Sets IOCON_XSTBYEN: whether the transceiver standby pin is controlled by the device.
    pub fn set_xstbyen(&mut self, value: bool)
        ensures
            final(self).0 == with_bit(old(self).0, IOCON_XSTBYEN, value),
    {
        self.0 = set_bit(self.0, IOCON_XSTBYEN, value);
    }

    /// Sets IOCON_TXCANOD: whether the TXCAN pin is an open-drain output.
    pub fn set_txcanod(&mut self, value: bool)
        ensures
            final(self).0 == with_bit(old(self).0, IOCON_TXCANOD, value),
    {
        self.0 = set_bit(self.0, IOCON_TXCANOD, value);
    }

    /// Sets IOCON_SOF: whether the start-of-frame signal appears on the clock output pin.
    pub fn set_sof(&mut self, value: bool)
        ensures
            final(self).0 == with_bit(old(self).0, IOCON_SOF, value),
    {
        self.0 = set_bit(self.0, IOCON_SOF, value);
    }

    /// Sets IOCON_INTOD: whether the interrupt pins are open-drain outputs.
    pub fn set_intod(&mut self, value: bool)
        ensures
            final(self).0 == with_bit(old(self).0, IOCON_INTOD, value),
    {
        self.0 = set_bit(self.0, IOCON_INTOD, value);
    }
}

} // verus!
