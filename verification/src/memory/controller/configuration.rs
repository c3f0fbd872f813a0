//! Configuration registers of the CAN controller.

use vstd::prelude::*;

use crate::bits::{bit, field, get_bit, get_field, set_bit, set_field, with_bit, with_field};
use crate::memory::{Register, RegisterValue, SFRAddress};

verus! {

/// Operation modes of the controller.
#[derive(Clone, Copy, Debug, PartialEq, Eq, Structural)]
pub enum OperationMode {
    NormalCanFd,
    Sleep,
    InternalLoopback,
    ListenOnly,
    Configuration,
    ExternalLoopback,
    NormalCan20,
    RestrictedOperation,
}

impl OperationMode {
    /// The code of the mode in REQOP and OPMOD.
    pub open spec fn code(self) -> u32 {
        match self {
            OperationMode::NormalCanFd => 0,
            OperationMode::Sleep => 1,
            OperationMode::InternalLoopback => 2,
            OperationMode::ListenOnly => 3,
            OperationMode::Configuration => 4,
            OperationMode::ExternalLoopback => 5,
            OperationMode::NormalCan20 => 6,
            OperationMode::RestrictedOperation => 7,
        }
    }

    /// The code of the mode in REQOP and OPMOD.
    pub fn to_code(self) -> (code: u32)
        ensures
            code == self.code(),
    {
        match self {
            OperationMode::NormalCanFd => 0,
            OperationMode::Sleep => 1,
            OperationMode::InternalLoopback => 2,
            OperationMode::ListenOnly => 3,
            OperationMode::Configuration => 4,
            OperationMode::ExternalLoopback => 5,
            OperationMode::NormalCan20 => 6,
            OperationMode::RestrictedOperation => 7,
        }
    }

    /// The mode with the given code.
    pub fn from_code(code: u32) -> (mode: OperationMode)
        requires
            code < 8,
        ensures
            mode.code() == code,
    {
        match code {
            0 => OperationMode::NormalCanFd,
            1 => OperationMode::Sleep,
            2 => OperationMode::InternalLoopback,
            3 => OperationMode::ListenOnly,
            4 => OperationMode::Configuration,
            5 => OperationMode::ExternalLoopback,
            6 => OperationMode::NormalCan20,
            _ => OperationMode::RestrictedOperation,
        }
    }
}

/// How the transmitter delay is compensated in the data phase.
#[derive(Clone, Copy, Debug, PartialEq, Eq, Structural)]
pub enum TransmitterDelayCompensationMode {
    Disabled,
    Manual,
    Automatic,
}

impl TransmitterDelayCompensationMode {
    /// The code of the mode in TDCMOD.
    pub open spec fn code(self) -> u32 {
        match self {
            TransmitterDelayCompensationMode::Disabled => 0,
            TransmitterDelayCompensationMode::Manual => 1,
            TransmitterDelayCompensationMode::Automatic => 2,
        }
    }

    /// The code of the mode in TDCMOD.
    pub fn to_code(self) -> (code: u32)
        ensures
            code == self.code(),
    {
        match self {
            TransmitterDelayCompensationMode::Disabled => 0,
            TransmitterDelayCompensationMode::Manual => 1,
            TransmitterDelayCompensationMode::Automatic => 2,
        }
    }
}

/// Position of the mode that the controller is in.
pub const CON_OPMOD: u32 = 21;

/// Position of the mode that is requested.
pub const CON_REQOP: u32 = 24;

pub const CON_DNCNT: u32 = 0;
pub const CON_RTXAT: u32 = 16;
pub const CON_STEF: u32 = 19;
pub const CON_TXQEN: u32 = 20;

/// C1CON: modes and features of the controller.
#[derive(Clone, Copy, Debug, PartialEq, Eq, Structural)]
pub struct CanControlRegister(pub u32);

impl RegisterValue for CanControlRegister {
    open spec fn bits(&self) -> u32 {
        self.0
    }

    fn from_bits(raw: u32) -> (register: Self)
        ensures
            register == CanControlRegister(raw),
    {
        CanControlRegister(raw)
    }

    fn into_bits(self) -> (raw: u32) {
        self.0
    }
}

impl Register for CanControlRegister {
    open spec fn address() -> SFRAddress {
        SFRAddress::C1CON
    }

    fn get_address() -> (address: SFRAddress) {
        SFRAddress::C1CON
    }
}

impl CanControlRegister {
    /// Sets CON_DNCNT: number of data bytes' bits that filters compare in standard frames.
    pub fn set_dncnt(&mut self, value: u8)
        ensures
            final(self).0 == with_field(old(self).0, CON_DNCNT, 5, value as u32),
    {
        self.0 = set_field(self.0, CON_DNCNT, 5, value as u32);
    }

    /// Sets CON_RTXAT: whether the retransmission limits of the FIFOs are used.
    pub fn set_rtxat(&mut self, value: bool)
        ensures
            final(self).0 == with_bit(old(self).0, CON_RTXAT, value),
    {
        self.0 = set_bit(self.0, CON_RTXAT, value);
    }

    /// Sets CON_STEF: whether transmitted messages are stored in the transmit event FIFO.
    pub fn set_stef(&mut self, value: bool)
        ensures
            final(self).0 == with_bit(old(self).0, CON_STEF, value),
    {
        self.0 = set_bit(self.0, CON_STEF, value);
    }

    /// Whether the transmit queue is enabled.
    pub fn txqen(&self) -> (value: bool)
        ensures
            value == bit(self.0, CON_TXQEN),
    {
        get_bit(self.0, CON_TXQEN)
    }

    /// Sets CON_TXQEN: whether the transmit queue is enabled.
    pub fn set_txqen(&mut self, value: bool)
        ensures
            final(self).0 == with_bit(old(self).0, CON_TXQEN, value),
    {
        self.0 = set_bit(self.0, CON_TXQEN, value);
    }

    /// The mode that the controller is in.
    pub fn opmode(&self) -> (mode: OperationMode)
        ensures
            mode.code() == field(self.0, CON_OPMOD, 3),
    {
        proof {
            assert((1u32 << 3u32) == 8u32) by (bit_vector);
        }
        OperationMode::from_code(get_field(self.0, CON_OPMOD, 3))
    }

    /// Requests a mode.
    pub fn set_opmode(&mut self, mode: OperationMode)
        ensures
            final(self).0 == with_field(old(self).0, CON_REQOP, 3, mode.code()),
    {
        self.0 = set_field(self.0, CON_REQOP, 3, mode.to_code());
    }
}

pub const NBTCFG_SJW: u32 = 0;
pub const NBTCFG_TSEG2: u32 = 8;
pub const NBTCFG_TSEG1: u32 = 16;
pub const NBTCFG_BRP: u32 = 24;

/// C1NBTCFG: bit timing of the arbitration phase.
#[derive(Clone, Copy, Debug, PartialEq, Eq, Structural)]
pub struct NominalBitTimeConfigurationRegister(pub u32);

impl RegisterValue for NominalBitTimeConfigurationRegister {
    open spec fn bits(&self) -> u32 {
        self.0
    }

    fn from_bits(raw: u32) -> (register: Self)
        ensures
            register == NominalBitTimeConfigurationRegister(raw),
    {
        NominalBitTimeConfigurationRegister(raw)
    }

    fn into_bits(self) -> (raw: u32) {
        self.0
    }
}

impl Register for NominalBitTimeConfigurationRegister {
    open spec fn address() -> SFRAddress {
        SFRAddress::C1NBTCFG
    }

    fn get_address() -> (address: SFRAddress) {
        SFRAddress::C1NBTCFG
    }
}

impl NominalBitTimeConfigurationRegister {
    /// Sets NBTCFG_SJW: synchronization jump width.
    pub fn set_sjw(&mut self, value: u8)
        ensures
            final(self).0 == with_field(old(self).0, NBTCFG_SJW, 7, value as u32),
    {
        self.0 = set_field(self.0, NBTCFG_SJW, 7, value as u32);
    }

    /// Sets NBTCFG_TSEG2: time segment 2.
    pub fn set_tseg2(&mut self, value: u8)
        ensures
            final(self).0 == with_field(old(self).0, NBTCFG_TSEG2, 7, value as u32),
    {
        self.0 = set_field(self.0, NBTCFG_TSEG2, 7, value as u32);
    }

    /// Sets NBTCFG_TSEG1: time segment 1.
    pub fn set_tseg1(&mut self, value: u8)
        ensures
            final(self).0 == with_field(old(self).0, NBTCFG_TSEG1, 8, value as u32),
    {
        self.0 = set_field(self.0, NBTCFG_TSEG1, 8, value as u32);
    }

    /// Sets NBTCFG_BRP: baud rate prescaler.
    pub fn set_brp(&mut self, value: u8)
        ensures
            final(self).0 == with_field(old(self).0, NBTCFG_BRP, 8, value as u32),
    {
        self.0 = set_field(self.0, NBTCFG_BRP, 8, value as u32);
    }
}

pub const DBTCFG_SJW: u32 = 0;
pub const DBTCFG_TSEG2: u32 = 8;
pub const DBTCFG_TSEG1: u32 = 16;
pub const DBTCFG_BRP: u32 = 24;

/// C1DBTCFG: bit timing of the data phase.
#[derive(Clone, Copy, Debug, PartialEq, Eq, Structural)]
pub struct DataBitTimeConfigurationRegister(pub u32);

impl RegisterValue for DataBitTimeConfigurationRegister {
    open spec fn bits(&self) -> u32 {
        self.0
    }

    fn from_bits(raw: u32) -> (register: Self)
        ensures
            register == DataBitTimeConfigurationRegister(raw),
    {
        DataBitTimeConfigurationRegister(raw)
    }

    fn into_bits(self) -> (raw: u32) {
        self.0
    }
}

impl Register for DataBitTimeConfigurationRegister {
    open spec fn address() -> SFRAddress {
        SFRAddress::C1DBTCFG
    }

    fn get_address() -> (address: SFRAddress) {
        SFRAddress::C1DBTCFG
    }
}

impl DataBitTimeConfigurationRegister {
    /// Sets DBTCFG_SJW: synchronization jump width.
    pub fn set_sjw(&mut self, value: u8)
        ensures
            final(self).0 == with_field(old(self).0, DBTCFG_SJW, 4, value as u32),
    {
        self.0 = set_field(self.0, DBTCFG_SJW, 4, value as u32);
    }

    /// Sets DBTCFG_TSEG2: time segment 2.
    pub fn set_tseg2(&mut self, value: u8)
        ensures
            final(self).0 == with_field(old(self).0, DBTCFG_TSEG2, 4, value as u32),
    {
        self.0 = set_field(self.0, DBTCFG_TSEG2, 4, value as u32);
    }

    /// Sets DBTCFG_TSEG1: time segment 1.
    pub fn set_tseg1(&mut self, value: u8)
        ensures
            final(self).0 == with_field(old(self).0, DBTCFG_TSEG1, 5, value as u32),
    {
        self.0 = set_field(self.0, DBTCFG_TSEG1, 5, value as u32);
    }

    /// Sets DBTCFG_BRP: baud rate prescaler.
    pub fn set_brp(&mut self, value: u8)
        ensures
            final(self).0 == with_field(old(self).0, DBTCFG_BRP, 8, value as u32),
    {
        self.0 = set_field(self.0, DBTCFG_BRP, 8, value as u32);
    }
}

/// Position of the compensation mode.
pub const TDC_TDCMOD: u32 = 16;

pub const TDC_TDCV: u32 = 0;
pub const TDC_TDCO: u32 = 8;

/// C1TDC: transmitter delay compensation.
#[derive(Clone, Copy, Debug, PartialEq, Eq, Structural)]
pub struct TransmitterDelayCompensationRegister(pub u32);

impl RegisterValue for TransmitterDelayCompensationRegister {
    open spec fn bits(&self) -> u32 {
        self.0
    }

    fn from_bits(raw: u32) -> (register: Self)
        ensures
            register == TransmitterDelayCompensationRegister(raw),
    {
        TransmitterDelayCompensationRegister(raw)
    }

    fn into_bits(self) -> (raw: u32) {
        self.0
    }
}

impl Register for TransmitterDelayCompensationRegister {
    open spec fn address() -> SFRAddress {
        SFRAddress::C1TDC
    }

    fn get_address() -> (address: SFRAddress) {
        SFRAddress::C1TDC
    }
}

impl TransmitterDelayCompensationRegister {
    /// Sets TDC_TDCV: measured or manual delay.
    pub fn set_tdcv(&mut self, value: u8)
        ensures
            final(self).0 == with_field(old(self).0, TDC_TDCV, 6, value as u32),
    {
        self.0 = set_field(self.0, TDC_TDCV, 6, value as u32);
    }

    /// Sets TDC_TDCO: offset that is added to the delay.
    pub fn set_tdco(&mut self, value: u8)
        ensures
            final(self).0 == with_field(old(self).0, TDC_TDCO, 7, value as u32),
    {
        self.0 = set_field(self.0, TDC_TDCO, 7, value as u32);
    }

    /// Sets the compensation mode.
    pub fn set_tdcmod(&mut self, mode: TransmitterDelayCompensationMode)
        ensures
            final(self).0 == with_field(old(self).0, TDC_TDCMOD, 2, mode.code()),
    {
        self.0 = set_field(self.0, TDC_TDCMOD, 2, mode.to_code());
    }
}

/// C1TBC: the free-running counter behind the timestamps.
#[derive(Clone, Copy, Debug, PartialEq, Eq, Structural)]
pub struct TimeBaseCounterRegister(pub u32);

impl RegisterValue for TimeBaseCounterRegister {
    open spec fn bits(&self) -> u32 {
        self.0
    }

    fn from_bits(raw: u32) -> (register: Self)
        ensures
            register == TimeBaseCounterRegister(raw),
    {
        TimeBaseCounterRegister(raw)
    }

    fn into_bits(self) -> (raw: u32) {
        self.0
    }
}

impl Register for TimeBaseCounterRegister {
    open spec fn address() -> SFRAddress {
        SFRAddress::C1TBC
    }

    fn get_address() -> (address: SFRAddress) {
        SFRAddress::C1TBC
    }
}

impl TimeBaseCounterRegister {
    /// The value of the counter.
    pub fn tbc(&self) -> (value: u32)
        ensures
            value == self.0,
    {
        self.0
    }
}

pub const TSCON_TBCPRE: u32 = 0;
pub const TSCON_TBCEN: u32 = 16;

/// C1TSCON: the time base counter's prescaler.
#[derive(Clone, Copy, Debug, PartialEq, Eq, Structural)]
pub struct TimeStampControlRegister(pub u32);

impl RegisterValue for TimeStampControlRegister {
    open spec fn bits(&self) -> u32 {
        self.0
    }

    fn from_bits(raw: u32) -> (register: Self)
        ensures
            register == TimeStampControlRegister(raw),
    {
        TimeStampControlRegister(raw)
    }

    fn into_bits(self) -> (raw: u32) {
        self.0
    }
}

impl Register for TimeStampControlRegister {
    open spec fn address() -> SFRAddress {
        SFRAddress::C1TSCON
    }

    fn get_address() -> (address: SFRAddress) {
        SFRAddress::C1TSCON
    }
}

impl TimeStampControlRegister {
    /// Sets TSCON_TBCPRE: prescaler of the time base counter, less one.
    pub fn set_tbcpre(&mut self, value: u16)
        ensures
            final(self).0 == with_field(old(self).0, TSCON_TBCPRE, 10, value as u32),
    {
        self.0 = set_field(self.0, TSCON_TBCPRE, 10, value as u32);
    }

    /// Sets TSCON_TBCEN: whether the time base counter runs.
    pub fn set_tbcen(&mut self, value: bool)
        ensures
            final(self).0 == with_bit(old(self).0, TSCON_TBCEN, value),
    {
        self.0 = set_bit(self.0, TSCON_TBCEN, value);
    }
}

} // verus!
