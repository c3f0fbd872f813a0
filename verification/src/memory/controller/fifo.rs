//! FIFOs of the CAN controller: receive and transmit FIFOs, the transmit queue and the transmit
//! event FIFO.

use vstd::prelude::*;

use crate::bits::{
    bit, field, get_bit, get_field, lemma_field_bound, lemma_field_reads_back_exact, set_bit,
    set_field, with_bit, with_field,
};
use crate::memory::{
    ClearableFlags, Register, RegisterValue, RepeatedRegister, SFRAddress, RAM_START,
};

verus! {

/// The FIFOs that can be set up for reception or transmission.
#[derive(Clone, Copy, Debug, PartialEq, Eq, Structural)]
pub enum FifoNumber {
    Fifo1,
    Fifo2,
    Fifo3,
    Fifo4,
    Fifo5,
    Fifo6,
    Fifo7,
    Fifo8,
    Fifo9,
    Fifo10,
    Fifo11,
    Fifo12,
    Fifo13,
    Fifo14,
    Fifo15,
    Fifo16,
    Fifo17,
    Fifo18,
    Fifo19,
    Fifo20,
    Fifo21,
    Fifo22,
    Fifo23,
    Fifo24,
    Fifo25,
    Fifo26,
    Fifo27,
    Fifo28,
    Fifo29,
    Fifo30,
    Fifo31,
}

impl FifoNumber {
    /// The number of the FIFO, from 1 to 31.
    pub open spec fn index(self) -> u8 {
        match self {
            FifoNumber::Fifo1 => 1,
            FifoNumber::Fifo2 => 2,
            FifoNumber::Fifo3 => 3,
            FifoNumber::Fifo4 => 4,
            FifoNumber::Fifo5 => 5,
            FifoNumber::Fifo6 => 6,
            FifoNumber::Fifo7 => 7,
            FifoNumber::Fifo8 => 8,
            FifoNumber::Fifo9 => 9,
            FifoNumber::Fifo10 => 10,
            FifoNumber::Fifo11 => 11,
            FifoNumber::Fifo12 => 12,
            FifoNumber::Fifo13 => 13,
            FifoNumber::Fifo14 => 14,
            FifoNumber::Fifo15 => 15,
            FifoNumber::Fifo16 => 16,
            FifoNumber::Fifo17 => 17,
            FifoNumber::Fifo18 => 18,
            FifoNumber::Fifo19 => 19,
            FifoNumber::Fifo20 => 20,
            FifoNumber::Fifo21 => 21,
            FifoNumber::Fifo22 => 22,
            FifoNumber::Fifo23 => 23,
            FifoNumber::Fifo24 => 24,
            FifoNumber::Fifo25 => 25,
            FifoNumber::Fifo26 => 26,
            FifoNumber::Fifo27 => 27,
            FifoNumber::Fifo28 => 28,
            FifoNumber::Fifo29 => 29,
            FifoNumber::Fifo30 => 30,
            FifoNumber::Fifo31 => 31,
        }
    }

    /// The number of the FIFO, from 1 to 31.
    pub fn number(self) -> (number: u8)
        ensures
            number == self.index(),
            1 <= number <= 31,
    {
        match self {
            FifoNumber::Fifo1 => 1,
            FifoNumber::Fifo2 => 2,
            FifoNumber::Fifo3 => 3,
            FifoNumber::Fifo4 => 4,
            FifoNumber::Fifo5 => 5,
            FifoNumber::Fifo6 => 6,
            FifoNumber::Fifo7 => 7,
            FifoNumber::Fifo8 => 8,
            FifoNumber::Fifo9 => 9,
            FifoNumber::Fifo10 => 10,
            FifoNumber::Fifo11 => 11,
            FifoNumber::Fifo12 => 12,
            FifoNumber::Fifo13 => 13,
            FifoNumber::Fifo14 => 14,
            FifoNumber::Fifo15 => 15,
            FifoNumber::Fifo16 => 16,
            FifoNumber::Fifo17 => 17,
            FifoNumber::Fifo18 => 18,
            FifoNumber::Fifo19 => 19,
            FifoNumber::Fifo20 => 20,
            FifoNumber::Fifo21 => 21,
            FifoNumber::Fifo22 => 22,
            FifoNumber::Fifo23 => 23,
            FifoNumber::Fifo24 => 24,
            FifoNumber::Fifo25 => 25,
            FifoNumber::Fifo26 => 26,
            FifoNumber::Fifo27 => 27,
            FifoNumber::Fifo28 => 28,
            FifoNumber::Fifo29 => 29,
            FifoNumber::Fifo30 => 30,
            FifoNumber::Fifo31 => 31,
        }
    }
}

/// Payload bytes that each message object of a FIFO reserves (PLSIZE).
#[derive(Clone, Copy, Debug, PartialEq, Eq, Structural)]
pub enum PayloadSize {
    Bytes8,
    Bytes12,
    Bytes16,
    Bytes20,
    Bytes24,
    Bytes32,
    Bytes48,
    Bytes64,
}

impl PayloadSize {
    /// The code of the size in PLSIZE.
    pub open spec fn code(self) -> u32 {
        match self {
            PayloadSize::Bytes8 => 0,
            PayloadSize::Bytes12 => 1,
            PayloadSize::Bytes16 => 2,
            PayloadSize::Bytes20 => 3,
            PayloadSize::Bytes24 => 4,
            PayloadSize::Bytes32 => 5,
            PayloadSize::Bytes48 => 6,
            PayloadSize::Bytes64 => 7,
        }
    }

    /// The code of the size in PLSIZE.
    pub fn to_code(self) -> (value: u32)
        ensures
            value == self.code(),
    {
        match self {
            PayloadSize::Bytes8 => 0,
            PayloadSize::Bytes12 => 1,
            PayloadSize::Bytes16 => 2,
            PayloadSize::Bytes20 => 3,
            PayloadSize::Bytes24 => 4,
            PayloadSize::Bytes32 => 5,
            PayloadSize::Bytes48 => 6,
            PayloadSize::Bytes64 => 7,
        }
    }

    /// The size in bytes.
    pub open spec fn bytes(self) -> nat {
        match self {
            PayloadSize::Bytes8 => 8,
            PayloadSize::Bytes12 => 12,
            PayloadSize::Bytes16 => 16,
            PayloadSize::Bytes20 => 20,
            PayloadSize::Bytes24 => 24,
            PayloadSize::Bytes32 => 32,
            PayloadSize::Bytes48 => 48,
            PayloadSize::Bytes64 => 64,
        }
    }

    /// The size in bytes.
    pub fn num_bytes(self) -> (value: usize)
        ensures
            value == self.bytes(),
            8 <= value <= 64,
            value % 4 == 0,
    {
        match self {
            PayloadSize::Bytes8 => 8,
            PayloadSize::Bytes12 => 12,
            PayloadSize::Bytes16 => 16,
            PayloadSize::Bytes20 => 20,
            PayloadSize::Bytes24 => 24,
            PayloadSize::Bytes32 => 32,
            PayloadSize::Bytes48 => 48,
            PayloadSize::Bytes64 => 64,
        }
    }

    /// The size with the given code.
    pub fn from_code(code: u32) -> (size: PayloadSize)
        requires
            code < 8,
        ensures
            size.code() == code,
    {
        match code {
            0 => PayloadSize::Bytes8,
            1 => PayloadSize::Bytes12,
            2 => PayloadSize::Bytes16,
            3 => PayloadSize::Bytes20,
            4 => PayloadSize::Bytes24,
            5 => PayloadSize::Bytes32,
            6 => PayloadSize::Bytes48,
            _ => PayloadSize::Bytes64,
        }
    }
}

/// The payload size that a control register of a FIFO or of the transmit queue holds.
pub open spec fn payload_bytes(raw: u32) -> nat {
    let code = field(raw, FIFOCON_PLSIZE, 3);
    if code <= 4 {
        (8 + 4 * code) as nat
    } else {
        (16 * (code - 3)) as nat
    }
}

/// A payload area has from 8 to 64 bytes, and a whole number of words.
pub proof fn lemma_payload_bytes(raw: u32)
    ensures
        8 <= payload_bytes(raw) <= 64,
        payload_bytes(raw) % 4 == 0,
{
    assert((1u32 << 3u32) == 8u32) by (bit_vector);
    lemma_field_bound(raw, FIFOCON_PLSIZE, 3);
}

/// How often an unacknowledged message is sent again.
#[derive(Clone, Copy, Debug, PartialEq, Eq, Structural)]
pub enum RetransmissionAttempts {
    Disabled,
    Three,
    Unlimited,
}

impl RetransmissionAttempts {
    /// The code of the limit in TXAT.
    pub open spec fn code(self) -> u32 {
        match self {
            RetransmissionAttempts::Disabled => 0,
            RetransmissionAttempts::Three => 1,
            RetransmissionAttempts::Unlimited => 2,
        }
    }

    /// The code of the limit in TXAT.
    pub fn to_code(self) -> (value: u32)
        ensures
            value == self.code(),
    {
        match self {
            RetransmissionAttempts::Disabled => 0,
            RetransmissionAttempts::Three => 1,
            RetransmissionAttempts::Unlimited => 2,
        }
    }
}

/// The value of FSIZE for a FIFO of `size` message objects: sizes from 1 to 32 are stored less
/// one, any other size counts as 32.
pub open spec fn fsize(size: u8) -> u32 {
    if 1 <= size <= 32 {
        (size - 1) as u32
    } else {
        31
    }
}

/// A size from 1 to 32 is what a control register then says its FIFO has; any other size counts
/// as 32.
pub proof fn lemma_fifo_size(raw: u32, size: u8)
    ensures
        field(with_field(raw, FIFOCON_FSIZE, 5, fsize(size)), FIFOCON_FSIZE, 5) + 1 == if 1 <= size
            <= 32 {
            size as int
        } else {
            32
        },
{
    assert((1u32 << 5u32) == 32u32) by (bit_vector);
    lemma_field_reads_back_exact(raw, FIFOCON_FSIZE, 5, fsize(size));
}

/// The contents of FSIZE for a FIFO with `size` messages.
fn fsize_of(size: u8) -> (value: u32)
    ensures
        value == fsize(size),
{
    if 1 <= size && size <= 32 {
        (size - 1) as u32
    } else {
        31
    }
}

/// Position of the FIFO size in every FIFO control register.
pub const FIFOCON_FSIZE: u32 = 24;

/// Position of the payload size in the control registers of FIFOs and of the transmit queue.
pub const FIFOCON_PLSIZE: u32 = 29;

/// Position of the retransmission limit in the control registers of FIFOs and of the transmit
/// queue.
pub const FIFOCON_TXAT: u32 = 21;

pub const FIFOCON_TFNRFNIE: u32 = 0;
pub const FIFOCON_TFHRFHIE: u32 = 1;
pub const FIFOCON_TFERFFIE: u32 = 2;
pub const FIFOCON_RXOVIE: u32 = 3;
pub const FIFOCON_TXATIE: u32 = 4;
pub const FIFOCON_RXTSEN: u32 = 5;
pub const FIFOCON_RTREN: u32 = 6;
pub const FIFOCON_TXEN: u32 = 7;
pub const FIFOCON_TXREQ: u32 = 9;
pub const FIFOCON_TXPRI: u32 = 16;

/// C1FIFOCONm: control of a FIFO.
#[derive(Clone, Copy, Debug, PartialEq, Eq, Structural)]
pub struct FifoControlRegister(pub u32);

impl RegisterValue for FifoControlRegister {
    open spec fn bits(&self) -> u32 {
        self.0
    }

    fn from_bits(raw: u32) -> (register: Self)
        ensures
            register == FifoControlRegister(raw),
    {
        FifoControlRegister(raw)
    }

    fn into_bits(self) -> (raw: u32) {
        self.0
    }
}

impl RepeatedRegister for FifoControlRegister {
    type Index = FifoNumber;

    open spec fn address_for(index: FifoNumber) -> SFRAddress {
        SFRAddress::C1FIFOCON(index)
    }

    fn get_address_for(index: FifoNumber) -> (address: SFRAddress) {
        SFRAddress::C1FIFOCON(index)
    }
}

impl FifoControlRegister {
    /// Sets FIFOCON_TFNRFNIE: interrupt on not full (transmit) or not empty (receive).
    pub fn set_tfnrfnie(&mut self, value: bool)
        ensures
            final(self).0 == with_bit(old(self).0, FIFOCON_TFNRFNIE, value),
    {
        self.0 = set_bit(self.0, FIFOCON_TFNRFNIE, value);
    }

    /// Sets FIFOCON_TFHRFHIE: interrupt on half empty (transmit) or half full (receive).
    pub fn set_tfhrfhie(&mut self, value: bool)
        ensures
            final(self).0 == with_bit(old(self).0, FIFOCON_TFHRFHIE, value),
    {
        self.0 = set_bit(self.0, FIFOCON_TFHRFHIE, value);
    }

    /// Sets FIFOCON_TFERFFIE: interrupt on empty (transmit) or full (receive).
    pub fn set_tferffie(&mut self, value: bool)
        ensures
            final(self).0 == with_bit(old(self).0, FIFOCON_TFERFFIE, value),
    {
        self.0 = set_bit(self.0, FIFOCON_TFERFFIE, value);
    }

    /// Sets FIFOCON_RXOVIE: interrupt on overflow.
    pub fn set_rxovie(&mut self, value: bool)
        ensures
            final(self).0 == with_bit(old(self).0, FIFOCON_RXOVIE, value),
    {
        self.0 = set_bit(self.0, FIFOCON_RXOVIE, value);
    }

    /// Sets FIFOCON_TXATIE: interrupt on exhausted transmission attempts.
    pub fn set_txatie(&mut self, value: bool)
        ensures
            final(self).0 == with_bit(old(self).0, FIFOCON_TXATIE, value),
    {
        self.0 = set_bit(self.0, FIFOCON_TXATIE, value);
    }

    /// Whether received messages carry a timestamp.
    pub fn rxtsen(&self) -> (value: bool)
        ensures
            value == bit(self.0, FIFOCON_RXTSEN),
    {
        get_bit(self.0, FIFOCON_RXTSEN)
    }

    /// Sets FIFOCON_RXTSEN: whether received messages carry a timestamp.
    pub fn set_rxtsen(&mut self, value: bool)
        ensures
            final(self).0 == with_bit(old(self).0, FIFOCON_RXTSEN, value),
    {
        self.0 = set_bit(self.0, FIFOCON_RXTSEN, value);
    }

    /// Sets FIFOCON_RTREN: whether remote frames request transmission.
    pub fn set_rtren(&mut self, value: bool)
        ensures
            final(self).0 == with_bit(old(self).0, FIFOCON_RTREN, value),
    {
        self.0 = set_bit(self.0, FIFOCON_RTREN, value);
    }

    /// Whether the FIFO transmits.
    pub fn txen(&self) -> (value: bool)
        ensures
            value == bit(self.0, FIFOCON_TXEN),
    {
        get_bit(self.0, FIFOCON_TXEN)
    }

    /// Sets FIFOCON_TXEN: whether the FIFO transmits.
    pub fn set_txen(&mut self, value: bool)
        ensures
            final(self).0 == with_bit(old(self).0, FIFOCON_TXEN, value),
    {
        self.0 = set_bit(self.0, FIFOCON_TXEN, value);
    }

    /// Whether transmission is requested.
    pub fn txreq(&self) -> (value: bool)
        ensures
            value == bit(self.0, FIFOCON_TXREQ),
    {
        get_bit(self.0, FIFOCON_TXREQ)
    }

    /// Sets FIFOCON_TXPRI: message priority.
    pub fn set_txpri(&mut self, value: u8)
        ensures
            final(self).0 == with_field(old(self).0, FIFOCON_TXPRI, 5, value as u32),
    {
        self.0 = set_field(self.0, FIFOCON_TXPRI, 5, value as u32);
    }

    /// Sets the number of message objects; any number that is not from 1 to 32 counts as 32.
    pub fn set_fifo_size(&mut self, size: u8)
        ensures
            final(self).0 == with_field(old(self).0, FIFOCON_FSIZE, 5, fsize(size)),
    {
        self.0 = set_field(self.0, FIFOCON_FSIZE, 5, fsize_of(size));
    }

    /// Sets the payload size.
    pub fn set_payload_size(&mut self, size: PayloadSize)
        ensures
            final(self).0 == with_field(old(self).0, FIFOCON_PLSIZE, 3, size.code()),
    {
        self.0 = set_field(self.0, FIFOCON_PLSIZE, 3, size.to_code());
    }

    /// The payload size.
    pub fn payload_size(&self) -> (size: PayloadSize)
        ensures
            size.code() == field(self.0, FIFOCON_PLSIZE, 3),
            size.bytes() == payload_bytes(self.0),
    {
        proof {
            assert((1u32 << 3u32) == 8u32) by (bit_vector);
        }
        PayloadSize::from_code(get_field(self.0, FIFOCON_PLSIZE, 3))
    }

    /// Sets the retransmission limit.
    pub fn set_retransmission_attempts(&mut self, attempts: RetransmissionAttempts)
        ensures
            final(self).0 == with_field(old(self).0, FIFOCON_TXAT, 2, attempts.code()),
    {
        self.0 = set_field(self.0, FIFOCON_TXAT, 2, attempts.to_code());
    }
}

pub const FIFOSTA_TFNRFNIF: u32 = 0;
pub const FIFOSTA_TFHRFHIF: u32 = 1;
pub const FIFOSTA_TFERFFIF: u32 = 2;
pub const FIFOSTA_RXOVIF: u32 = 3;
pub const FIFOSTA_TXATIF: u32 = 4;
pub const FIFOSTA_FIFOCI: u32 = 8;

/// C1FIFOSTAm: status of a FIFO.
#[derive(Clone, Copy, Debug, PartialEq, Eq, Structural)]
pub struct FifoStatusRegister(pub u32);

impl RegisterValue for FifoStatusRegister {
    open spec fn bits(&self) -> u32 {
        self.0
    }

    fn from_bits(raw: u32) -> (register: Self)
        ensures
            register == FifoStatusRegister(raw),
    {
        FifoStatusRegister(raw)
    }

    fn into_bits(self) -> (raw: u32) {
        self.0
    }
}

impl RepeatedRegister for FifoStatusRegister {
    type Index = FifoNumber;

    open spec fn address_for(index: FifoNumber) -> SFRAddress {
        SFRAddress::C1FIFOSTA(index)
    }

    fn get_address_for(index: FifoNumber) -> (address: SFRAddress) {
        SFRAddress::C1FIFOSTA(index)
    }
}

impl ClearableFlags for FifoStatusRegister {
    open spec fn clearable() -> u32 {
        0x18
    }

    fn clearable_flags() -> (mask: u32) {
        0x18
    }
}

impl FifoStatusRegister {
    /// Not full (transmit) or not empty (receive).
    pub fn tfnrfnif(&self) -> (value: bool)
        ensures
            value == bit(self.0, FIFOSTA_TFNRFNIF),
    {
        get_bit(self.0, FIFOSTA_TFNRFNIF)
    }

    /// Half empty (transmit) or half full (receive).
    pub fn tfhrfhif(&self) -> (value: bool)
        ensures
            value == bit(self.0, FIFOSTA_TFHRFHIF),
    {
        get_bit(self.0, FIFOSTA_TFHRFHIF)
    }

    /// Empty (transmit) or full (receive).
    pub fn tferffif(&self) -> (value: bool)
        ensures
            value == bit(self.0, FIFOSTA_TFERFFIF),
    {
        get_bit(self.0, FIFOSTA_TFERFFIF)
    }

    /// A message was lost to an overflow.
    pub fn rxovif(&self) -> (value: bool)
        ensures
            value == bit(self.0, FIFOSTA_RXOVIF),
    {
        get_bit(self.0, FIFOSTA_RXOVIF)
    }

    /// Resets the flag FIFOSTA_RXOVIF.
    pub fn clear_rxovif(&mut self)
        ensures
            final(self).0 == with_bit(old(self).0, FIFOSTA_RXOVIF, false),
    {
        self.0 = set_bit(self.0, FIFOSTA_RXOVIF, false);
    }

    /// The transmission attempts are exhausted.
    pub fn txatif(&self) -> (value: bool)
        ensures
            value == bit(self.0, FIFOSTA_TXATIF),
    {
        get_bit(self.0, FIFOSTA_TXATIF)
    }

    /// Resets the flag FIFOSTA_TXATIF.
    pub fn clear_txatif(&mut self)
        ensures
            final(self).0 == with_bit(old(self).0, FIFOSTA_TXATIF, false),
    {
        self.0 = set_bit(self.0, FIFOSTA_TXATIF, false);
    }

    /// Index of the next message object that the controller uses.
    pub fn fifoci(&self) -> (value: u32)
        ensures
            value == field(self.0, FIFOSTA_FIFOCI, 5),
    {
        get_field(self.0, FIFOSTA_FIFOCI, 5)
    }
}

pub const TEFCON_TEFNEIE: u32 = 0;
pub const TEFCON_TEFHIE: u32 = 1;
pub const TEFCON_TEFFIE: u32 = 2;
pub const TEFCON_TEFOVIE: u32 = 3;
pub const TEFCON_TEFTSEN: u32 = 5;

/// C1TEFCON: control of the transmit event FIFO.
#[derive(Clone, Copy, Debug, PartialEq, Eq, Structural)]
pub struct TxEventFifoControlRegister(pub u32);

impl RegisterValue for TxEventFifoControlRegister {
    open spec fn bits(&self) -> u32 {
        self.0
    }

    fn from_bits(raw: u32) -> (register: Self)
        ensures
            register == TxEventFifoControlRegister(raw),
    {
        TxEventFifoControlRegister(raw)
    }

    fn into_bits(self) -> (raw: u32) {
        self.0
    }
}

impl Register for TxEventFifoControlRegister {
    open spec fn address() -> SFRAddress {
        SFRAddress::C1TEFCON
    }

    fn get_address() -> (address: SFRAddress) {
        SFRAddress::C1TEFCON
    }
}

impl TxEventFifoControlRegister {
    /// Sets TEFCON_TEFNEIE: interrupt on not empty.
    pub fn set_tefneie(&mut self, value: bool)
        ensures
            final(self).0 == with_bit(old(self).0, TEFCON_TEFNEIE, value),
    {
        self.0 = set_bit(self.0, TEFCON_TEFNEIE, value);
    }

    /// Sets TEFCON_TEFHIE: interrupt on half full.
    pub fn set_tefhie(&mut self, value: bool)
        ensures
            final(self).0 == with_bit(old(self).0, TEFCON_TEFHIE, value),
    {
        self.0 = set_bit(self.0, TEFCON_TEFHIE, value);
    }

    /// Sets TEFCON_TEFFIE: interrupt on full.
    pub fn set_teffie(&mut self, value: bool)
        ensures
            final(self).0 == with_bit(old(self).0, TEFCON_TEFFIE, value),
    {
        self.0 = set_bit(self.0, TEFCON_TEFFIE, value);
    }

    /// Sets TEFCON_TEFOVIE: interrupt on overflow.
    pub fn set_tefovie(&mut self, value: bool)
        ensures
            final(self).0 == with_bit(old(self).0, TEFCON_TEFOVIE, value),
    {
        self.0 = set_bit(self.0, TEFCON_TEFOVIE, value);
    }

    /// Whether events carry a timestamp.
    pub fn teftsen(&self) -> (value: bool)
        ensures
            value == bit(self.0, TEFCON_TEFTSEN),
    {
        get_bit(self.0, TEFCON_TEFTSEN)
    }

    /// Sets TEFCON_TEFTSEN: whether events carry a timestamp.
    pub fn set_teftsen(&mut self, value: bool)
        ensures
            final(self).0 == with_bit(old(self).0, TEFCON_TEFTSEN, value),
    {
        self.0 = set_bit(self.0, TEFCON_TEFTSEN, value);
    }

    /// Sets the number of message objects; any number that is not from 1 to 32 counts as 32.
    pub fn set_fifo_size(&mut self, size: u8)
        ensures
            final(self).0 == with_field(old(self).0, FIFOCON_FSIZE, 5, fsize(size)),
    {
        self.0 = set_field(self.0, FIFOCON_FSIZE, 5, fsize_of(size));
    }
}

pub const TEFSTA_TEFNEIF: u32 = 0;
pub const TEFSTA_TEFHIF: u32 = 1;
pub const TEFSTA_TEFFIF: u32 = 2;
pub const TEFSTA_TEFOVIF: u32 = 3;

/// C1TEFSTA: status of the transmit event FIFO.
#[derive(Clone, Copy, Debug, PartialEq, Eq, Structural)]
pub struct TxEventFifoStatusRegister(pub u32);

impl RegisterValue for TxEventFifoStatusRegister {
    open spec fn bits(&self) -> u32 {
        self.0
    }

    fn from_bits(raw: u32) -> (register: Self)
        ensures
            register == TxEventFifoStatusRegister(raw),
    {
        TxEventFifoStatusRegister(raw)
    }

    fn into_bits(self) -> (raw: u32) {
        self.0
    }
}

impl Register for TxEventFifoStatusRegister {
    open spec fn address() -> SFRAddress {
        SFRAddress::C1TEFSTA
    }

    fn get_address() -> (address: SFRAddress) {
        SFRAddress::C1TEFSTA
    }
}

impl ClearableFlags for TxEventFifoStatusRegister {
    open spec fn clearable() -> u32 {
        0x8
    }

    fn clearable_flags() -> (mask: u32) {
        0x8
    }
}

impl TxEventFifoStatusRegister {
    /// Not empty.
    pub fn tefneif(&self) -> (value: bool)
        ensures
            value == bit(self.0, TEFSTA_TEFNEIF),
    {
        get_bit(self.0, TEFSTA_TEFNEIF)
    }

    /// Half full.
    pub fn tefhif(&self) -> (value: bool)
        ensures
            value == bit(self.0, TEFSTA_TEFHIF),
    {
        get_bit(self.0, TEFSTA_TEFHIF)
    }

    /// Full.
    pub fn teffif(&self) -> (value: bool)
        ensures
            value == bit(self.0, TEFSTA_TEFFIF),
    {
        get_bit(self.0, TEFSTA_TEFFIF)
    }

    /// An event was lost to an overflow.
    pub fn tefovif(&self) -> (value: bool)
        ensures
            value == bit(self.0, TEFSTA_TEFOVIF),
    {
        get_bit(self.0, TEFSTA_TEFOVIF)
    }

    /// Resets the flag TEFSTA_TEFOVIF.
    pub fn clear_tefovif(&mut self)
        ensures
            final(self).0 == with_bit(old(self).0, TEFSTA_TEFOVIF, false),
    {
        self.0 = set_bit(self.0, TEFSTA_TEFOVIF, false);
    }
}

pub const TXQCON_TXQNIE: u32 = 0;
pub const TXQCON_TXQEIE: u32 = 2;
pub const TXQCON_TXATIE: u32 = 4;
pub const TXQCON_TXREQ: u32 = 9;
pub const TXQCON_TXPRI: u32 = 16;

/// C1TXQCON: control of the transmit queue.
#[derive(Clone, Copy, Debug, PartialEq, Eq, Structural)]
pub struct TxQueueControlRegister(pub u32);

impl RegisterValue for TxQueueControlRegister {
    open spec fn bits(&self) -> u32 {
        self.0
    }

    fn from_bits(raw: u32) -> (register: Self)
        ensures
            register == TxQueueControlRegister(raw),
    {
        TxQueueControlRegister(raw)
    }

    fn into_bits(self) -> (raw: u32) {
        self.0
    }
}

impl Register for TxQueueControlRegister {
    open spec fn address() -> SFRAddress {
        SFRAddress::C1TXQCON
    }

    fn get_address() -> (address: SFRAddress) {
        SFRAddress::C1TXQCON
    }
}

impl TxQueueControlRegister {
    /// Sets TXQCON_TXQNIE: interrupt on not full.
    pub fn set_txqnie(&mut self, value: bool)
        ensures
            final(self).0 == with_bit(old(self).0, TXQCON_TXQNIE, value),
    {
        self.0 = set_bit(self.0, TXQCON_TXQNIE, value);
    }

    /// Sets TXQCON_TXQEIE: interrupt on empty.
    pub fn set_txqeie(&mut self, value: bool)
        ensures
            final(self).0 == with_bit(old(self).0, TXQCON_TXQEIE, value),
    {
        self.0 = set_bit(self.0, TXQCON_TXQEIE, value);
    }

    /// Sets TXQCON_TXATIE: interrupt on exhausted transmission attempts.
    pub fn set_txatie(&mut self, value: bool)
        ensures
            final(self).0 == with_bit(old(self).0, TXQCON_TXATIE, value),
    {
        self.0 = set_bit(self.0, TXQCON_TXATIE, value);
    }

    /// Whether transmission is requested.
    pub fn txreq(&self) -> (value: bool)
        ensures
            value == bit(self.0, TXQCON_TXREQ),
    {
        get_bit(self.0, TXQCON_TXREQ)
    }

    /// Sets TXQCON_TXPRI: message priority.
    pub fn set_txpri(&mut self, value: u8)
        ensures
            final(self).0 == with_field(old(self).0, TXQCON_TXPRI, 5, value as u32),
    {
        self.0 = set_field(self.0, TXQCON_TXPRI, 5, value as u32);
    }

    /// Sets the number of message objects; any number that is not from 1 to 32 counts as 32.
    pub fn set_fifo_size(&mut self, size: u8)
        ensures
            final(self).0 == with_field(old(self).0, FIFOCON_FSIZE, 5, fsize(size)),
    {
        self.0 = set_field(self.0, FIFOCON_FSIZE, 5, fsize_of(size));
    }

    /// Sets the payload size.
    pub fn set_payload_size(&mut self, size: PayloadSize)
        ensures
            final(self).0 == with_field(old(self).0, FIFOCON_PLSIZE, 3, size.code()),
    {
        self.0 = set_field(self.0, FIFOCON_PLSIZE, 3, size.to_code());
    }

    /// The payload size.
    pub fn payload_size(&self) -> (size: PayloadSize)
        ensures
            size.code() == field(self.0, FIFOCON_PLSIZE, 3),
            size.bytes() == payload_bytes(self.0),
    {
        proof {
            assert((1u32 << 3u32) == 8u32) by (bit_vector);
        }
        PayloadSize::from_code(get_field(self.0, FIFOCON_PLSIZE, 3))
    }

    /// Sets the retransmission limit.
    pub fn set_retransmission_attempts(&mut self, attempts: RetransmissionAttempts)
        ensures
            final(self).0 == with_field(old(self).0, FIFOCON_TXAT, 2, attempts.code()),
    {
        self.0 = set_field(self.0, FIFOCON_TXAT, 2, attempts.to_code());
    }
}

pub const TXQSTA_TXQNIF: u32 = 0;
pub const TXQSTA_TXQEIF: u32 = 2;
pub const TXQSTA_TXATIF: u32 = 4;

/// C1TXQSTA: status of the transmit queue.
#[derive(Clone, Copy, Debug, PartialEq, Eq, Structural)]
pub struct TxQueueStatusRegister(pub u32);

impl RegisterValue for TxQueueStatusRegister {
    open spec fn bits(&self) -> u32 {
        self.0
    }

    fn from_bits(raw: u32) -> (register: Self)
        ensures
            register == TxQueueStatusRegister(raw),
    {
        TxQueueStatusRegister(raw)
    }

    fn into_bits(self) -> (raw: u32) {
        self.0
    }
}

impl Register for TxQueueStatusRegister {
    open spec fn address() -> SFRAddress {
        SFRAddress::C1TXQSTA
    }

    fn get_address() -> (address: SFRAddress) {
        SFRAddress::C1TXQSTA
    }
}

impl ClearableFlags for TxQueueStatusRegister {
    open spec fn clearable() -> u32 {
        0x10
    }

    fn clearable_flags() -> (mask: u32) {
        0x10
    }
}

impl TxQueueStatusRegister {
    /// Not full.
    pub fn txqnif(&self) -> (value: bool)
        ensures
            value == bit(self.0, TXQSTA_TXQNIF),
    {
        get_bit(self.0, TXQSTA_TXQNIF)
    }

    /// Empty.
    pub fn txqeif(&self) -> (value: bool)
        ensures
            value == bit(self.0, TXQSTA_TXQEIF),
    {
        get_bit(self.0, TXQSTA_TXQEIF)
    }

    /// The transmission attempts are exhausted.
    pub fn txatif(&self) -> (value: bool)
        ensures
            value == bit(self.0, TXQSTA_TXATIF),
    {
        get_bit(self.0, TXQSTA_TXATIF)
    }

    /// Resets the flag TXQSTA_TXATIF.
    pub fn clear_txatif(&mut self)
        ensures
            final(self).0 == with_bit(old(self).0, TXQSTA_TXATIF, false),
    {
        self.0 = set_bit(self.0, TXQSTA_TXATIF, false);
    }
}

/// The FIFOs that have a user address register.
#[derive(Clone, Copy, Debug, PartialEq, Eq, Structural)]
pub enum UserAddressKind {
    TxEventFifo,
    TxQueue,
    Fifo(FifoNumber),
}

/// The RAM address that a user address register stands for: its value counts from the start of
/// the RAM.
pub open spec fn ram_address(raw: u32) -> int {
    RAM_START + field(raw, UA_OFFSET, 12)
}

pub const UA_OFFSET: u32 = 0;

/// C1TEFUA, C1TXQUA and C1FIFOUAm: where the next message object is read or written.
#[derive(Clone, Copy, Debug, PartialEq, Eq, Structural)]
pub struct UserAddressRegister(pub u32);

impl RegisterValue for UserAddressRegister {
    open spec fn bits(&self) -> u32 {
        self.0
    }

    fn from_bits(raw: u32) -> (register: Self)
        ensures
            register == UserAddressRegister(raw),
    {
        UserAddressRegister(raw)
    }

    fn into_bits(self) -> (raw: u32) {
        self.0
    }
}

impl RepeatedRegister for UserAddressRegister {
    type Index = UserAddressKind;

    open spec fn address_for(index: UserAddressKind) -> SFRAddress {
        match index {
            UserAddressKind::TxEventFifo => SFRAddress::C1TEFUA,
            UserAddressKind::TxQueue => SFRAddress::C1TXQUA,
            UserAddressKind::Fifo(fifo) => SFRAddress::C1FIFOUA(fifo),
        }
    }

    fn get_address_for(index: UserAddressKind) -> (address: SFRAddress) {
        match index {
            UserAddressKind::TxEventFifo => SFRAddress::C1TEFUA,
            UserAddressKind::TxQueue => SFRAddress::C1TXQUA,
            UserAddressKind::Fifo(fifo) => SFRAddress::C1FIFOUA(fifo),
        }
    }
}

impl UserAddressRegister {
    /// Offset of the next message object from the start of the RAM.
    pub fn offset(&self) -> (value: u32)
        ensures
            value == field(self.0, UA_OFFSET, 12),
    {
        get_field(self.0, UA_OFFSET, 12)
    }

    /// The RAM address of the next message object.
    pub fn calculate_ram_address(&self) -> (address: u16)
        ensures
            address == ram_address(self.0),
    {
        proof {
            assert((1u32 << 12u32) == 0x1000u32) by (bit_vector);
        }
        RAM_START + get_field(self.0, UA_OFFSET, 12) as u16
    }
}

} // verus!
