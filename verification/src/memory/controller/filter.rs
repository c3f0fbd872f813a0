//! Acceptance filters of the CAN controller.

use vstd::prelude::*;

use crate::bits::{set_bit, set_field, with_bit, with_field};
use crate::memory::controller::fifo::FifoNumber;
use crate::memory::{RegisterValue, RepeatedRegister, SFRAddress};

verus! {

/// The acceptance filters.
#[derive(Clone, Copy, Debug, PartialEq, Eq, Structural)]
pub enum FilterNumber {
    Filter0,
    Filter1,
    Filter2,
    Filter3,
    Filter4,
    Filter5,
    Filter6,
    Filter7,
    Filter8,
    Filter9,
    Filter10,
    Filter11,
    Filter12,
    Filter13,
    Filter14,
    Filter15,
    Filter16,
    Filter17,
    Filter18,
    Filter19,
    Filter20,
    Filter21,
    Filter22,
    Filter23,
    Filter24,
    Filter25,
    Filter26,
    Filter27,
    Filter28,
    Filter29,
    Filter30,
    Filter31,
}

/// The filter control registers, each of which holds four filters.
#[derive(Clone, Copy, Debug, PartialEq, Eq, Structural)]
pub enum FilterControlNumber {
    Control0,
    Control1,
    Control2,
    Control3,
    Control4,
    Control5,
    Control6,
    Control7,
}

impl FilterControlNumber {
    /// The number of the register, from 0 to 7.
    pub open spec fn index(self) -> u8 {
        match self {
            FilterControlNumber::Control0 => 0,
            FilterControlNumber::Control1 => 1,
            FilterControlNumber::Control2 => 2,
            FilterControlNumber::Control3 => 3,
            FilterControlNumber::Control4 => 4,
            FilterControlNumber::Control5 => 5,
            FilterControlNumber::Control6 => 6,
            FilterControlNumber::Control7 => 7,
        }
    }

    /// The number of the register, from 0 to 7.
    pub fn number(self) -> (value: u8)
        ensures
            value == self.index(),
            value < 8,
    {
        match self {
            FilterControlNumber::Control0 => 0,
            FilterControlNumber::Control1 => 1,
            FilterControlNumber::Control2 => 2,
            FilterControlNumber::Control3 => 3,
            FilterControlNumber::Control4 => 4,
            FilterControlNumber::Control5 => 5,
            FilterControlNumber::Control6 => 6,
            FilterControlNumber::Control7 => 7,
        }
    }

    /// The register with the given number.
    pub fn from_number(number: u8) -> (control: FilterControlNumber)
        requires
            number < 8,
        ensures
            control.index() == number,
    {
        match number {
            0 => FilterControlNumber::Control0,
            1 => FilterControlNumber::Control1,
            2 => FilterControlNumber::Control2,
            3 => FilterControlNumber::Control3,
            4 => FilterControlNumber::Control4,
            5 => FilterControlNumber::Control5,
            6 => FilterControlNumber::Control6,
            _ => FilterControlNumber::Control7,
        }
    }
}

impl FilterNumber {
    /// The number of the filter, from 0 to 31.
    pub open spec fn index(self) -> u8 {
        match self {
            FilterNumber::Filter0 => 0,
            FilterNumber::Filter1 => 1,
            FilterNumber::Filter2 => 2,
            FilterNumber::Filter3 => 3,
            FilterNumber::Filter4 => 4,
            FilterNumber::Filter5 => 5,
            FilterNumber::Filter6 => 6,
            FilterNumber::Filter7 => 7,
            FilterNumber::Filter8 => 8,
            FilterNumber::Filter9 => 9,
            FilterNumber::Filter10 => 10,
            FilterNumber::Filter11 => 11,
            FilterNumber::Filter12 => 12,
            FilterNumber::Filter13 => 13,
            FilterNumber::Filter14 => 14,
            FilterNumber::Filter15 => 15,
            FilterNumber::Filter16 => 16,
            FilterNumber::Filter17 => 17,
            FilterNumber::Filter18 => 18,
            FilterNumber::Filter19 => 19,
            FilterNumber::Filter20 => 20,
            FilterNumber::Filter21 => 21,
            FilterNumber::Filter22 => 22,
            FilterNumber::Filter23 => 23,
            FilterNumber::Filter24 => 24,
            FilterNumber::Filter25 => 25,
            FilterNumber::Filter26 => 26,
            FilterNumber::Filter27 => 27,
            FilterNumber::Filter28 => 28,
            FilterNumber::Filter29 => 29,
            FilterNumber::Filter30 => 30,
            FilterNumber::Filter31 => 31,
        }
    }

    /// The number of the filter, from 0 to 31.
    pub fn number(self) -> (value: u8)
        ensures
            value == self.index(),
            value < 32,
    {
        match self {
            FilterNumber::Filter0 => 0,
            FilterNumber::Filter1 => 1,
            FilterNumber::Filter2 => 2,
            FilterNumber::Filter3 => 3,
            FilterNumber::Filter4 => 4,
            FilterNumber::Filter5 => 5,
            FilterNumber::Filter6 => 6,
            FilterNumber::Filter7 => 7,
            FilterNumber::Filter8 => 8,
            FilterNumber::Filter9 => 9,
            FilterNumber::Filter10 => 10,
            FilterNumber::Filter11 => 11,
            FilterNumber::Filter12 => 12,
            FilterNumber::Filter13 => 13,
            FilterNumber::Filter14 => 14,
            FilterNumber::Filter15 => 15,
            FilterNumber::Filter16 => 16,
            FilterNumber::Filter17 => 17,
            FilterNumber::Filter18 => 18,
            FilterNumber::Filter19 => 19,
            FilterNumber::Filter20 => 20,
            FilterNumber::Filter21 => 21,
            FilterNumber::Filter22 => 22,
            FilterNumber::Filter23 => 23,
            FilterNumber::Filter24 => 24,
            FilterNumber::Filter25 => 25,
            FilterNumber::Filter26 => 26,
            FilterNumber::Filter27 => 27,
            FilterNumber::Filter28 => 28,
            FilterNumber::Filter29 => 29,
            FilterNumber::Filter30 => 30,
            FilterNumber::Filter31 => 31,
        }
    }

    /// The control register that holds this filter.
    pub open spec fn control(self) -> FilterControlNumber {
        match self.index() / 4 {
            0 => FilterControlNumber::Control0,
            1 => FilterControlNumber::Control1,
            2 => FilterControlNumber::Control2,
            3 => FilterControlNumber::Control3,
            4 => FilterControlNumber::Control4,
            5 => FilterControlNumber::Control5,
            6 => FilterControlNumber::Control6,
            _ => FilterControlNumber::Control7,
        }
    }

    /// The control register that holds this filter, and the filter's place in it.
    pub fn get_control_register(self) -> (place: (FilterControlNumber, u8))
        ensures
            place.0 == self.control(),
            place.0.index() == self.index() / 4,
            place.1 == self.index() % 4,
            place.1 < 4,
    {
        let number: u8 = self.number();
        (FilterControlNumber::from_number(number / 4), number % 4)
    }
}

/// Position of the enable bit of the filter at `place` in its control register.
pub open spec fn enable_position(place: u8) -> u32 {
    (8 * place + 7) as u32
}

/// Position of the buffer pointer of the filter at `place` in its control register.
pub open spec fn pointer_position(place: u8) -> u32 {
    (8 * place) as u32
}

/// C1FLTCONm: enable bits and buffer pointers of four filters.
#[derive(Clone, Copy, Debug, PartialEq, Eq, Structural)]
pub struct FilterControlRegister(pub u32);

impl RegisterValue for FilterControlRegister {
    open spec fn bits(&self) -> u32 {
        self.0
    }

    fn from_bits(raw: u32) -> (register: Self)
        ensures
            register == FilterControlRegister(raw),
    {
        FilterControlRegister(raw)
    }

    fn into_bits(self) -> (raw: u32) {
        self.0
    }
}

impl RepeatedRegister for FilterControlRegister {
    type Index = FilterControlNumber;

    open spec fn address_for(index: FilterControlNumber) -> SFRAddress {
        SFRAddress::C1FLTCON(index)
    }

    fn get_address_for(index: FilterControlNumber) -> (address: SFRAddress) {
        SFRAddress::C1FLTCON(index)
    }
}

impl FilterControlRegister {
    /// Enables or disables the filter at `place`.
    pub fn set_enabled(&mut self, place: u8, value: bool)
        requires
            place < 4,
        ensures
            final(self).0 == with_bit(old(self).0, enable_position(place), value),
    {
        self.0 = set_bit(self.0, 8 * place as u32 + 7, value);
    }

    /// Sets the FIFO that receives what the filter at `place` accepts.
    pub fn set_buffer_pointer(&mut self, place: u8, fifo: FifoNumber)
        requires
            place < 4,
        ensures
            final(self).0 == with_field(
                old(self).0,
                pointer_position(place),
                5,
                fifo.index() as u32,
            ),
    {
        self.0 = set_field(self.0, 8 * place as u32, 5, fifo.number() as u32);
    }
}

pub const FLTOBJ_SID: u32 = 0;
pub const FLTOBJ_EID: u32 = 11;
pub const FLTOBJ_EXIDE: u32 = 30;

/// C1FLTOBJm: the identifier that a filter compares with.
#[derive(Clone, Copy, Debug, PartialEq, Eq, Structural)]
pub struct FilterObjectRegister(pub u32);

impl RegisterValue for FilterObjectRegister {
    open spec fn bits(&self) -> u32 {
        self.0
    }

    fn from_bits(raw: u32) -> (register: Self)
        ensures
            register == FilterObjectRegister(raw),
    {
        FilterObjectRegister(raw)
    }

    fn into_bits(self) -> (raw: u32) {
        self.0
    }
}

impl RepeatedRegister for FilterObjectRegister {
    type Index = FilterNumber;

    open spec fn address_for(index: FilterNumber) -> SFRAddress {
        SFRAddress::C1FLTOBJ(index)
    }

    fn get_address_for(index: FilterNumber) -> (address: SFRAddress) {
        SFRAddress::C1FLTOBJ(index)
    }
}

impl FilterObjectRegister {
    /// Sets FLTOBJ_SID: standard identifier.
    pub fn set_sid(&mut self, value: u16)
        ensures
            final(self).0 == with_field(old(self).0, FLTOBJ_SID, 11, value as u32),
    {
        self.0 = set_field(self.0, FLTOBJ_SID, 11, value as u32);
    }

    /// Sets FLTOBJ_EID: extended identifier bits.
    pub fn set_eid(&mut self, value: u32)
        ensures
            final(self).0 == with_field(old(self).0, FLTOBJ_EID, 18, value as u32),
    {
        self.0 = set_field(self.0, FLTOBJ_EID, 18, value as u32);
    }

    /// Sets FLTOBJ_EXIDE: whether only extended frames match.
    pub fn set_exide(&mut self, value: bool)
        ensures
            final(self).0 == with_bit(old(self).0, FLTOBJ_EXIDE, value),
    {
        self.0 = set_bit(self.0, FLTOBJ_EXIDE, value);
    }
}

pub const MASK_MSID: u32 = 0;
pub const MASK_MEID: u32 = 11;
pub const MASK_MIDE: u32 = 30;

/// C1MASKm: the identifier bits that a filter compares.
#[derive(Clone, Copy, Debug, PartialEq, Eq, Structural)]
pub struct MaskRegister(pub u32);

impl RegisterValue for MaskRegister {
    open spec fn bits(&self) -> u32 {
        self.0
    }

    fn from_bits(raw: u32) -> (register: Self)
        ensures
            register == MaskRegister(raw),
    {
        MaskRegister(raw)
    }

    fn into_bits(self) -> (raw: u32) {
        self.0
    }
}

impl RepeatedRegister for MaskRegister {
    type Index = FilterNumber;

    open spec fn address_for(index: FilterNumber) -> SFRAddress {
        SFRAddress::C1MASK(index)
    }

    fn get_address_for(index: FilterNumber) -> (address: SFRAddress) {
        SFRAddress::C1MASK(index)
    }
}

impl MaskRegister {
    /// Sets MASK_MSID: mask of the standard identifier.
    pub fn set_msid(&mut self, value: u16)
        ensures
            final(self).0 == with_field(old(self).0, MASK_MSID, 11, value as u32),
    {
        self.0 = set_field(self.0, MASK_MSID, 11, value as u32);
    }

    /// Sets MASK_MEID: mask of the extended identifier bits.
    pub fn set_meid(&mut self, value: u32)
        ensures
            final(self).0 == with_field(old(self).0, MASK_MEID, 18, value as u32),
    {
        self.0 = set_field(self.0, MASK_MEID, 18, value as u32);
    }

    /// Sets MASK_MIDE: whether the frame type must match.
    pub fn set_mide(&mut self, value: bool)
        ensures
            final(self).0 == with_bit(old(self).0, MASK_MIDE, value),
    {
        self.0 = set_bit(self.0, MASK_MIDE, value);
    }
}

} // verus!
