//! The driver: what to exchange with the device over SPI, and what the exchanged data means.
//!
//! The driver performs no I/O itself. An [`operation::Operation`] asks for accesses to registers
//! and RAM and for delays; a [`transfer::Transfer`] turns one access into SPI transactions. The
//! caller performs each of them and hands the outcome back.

pub mod bringup;
pub mod checksum;
pub mod configured;
pub mod device;
pub mod edit;
pub mod effect;
pub mod failure;
pub mod modify;
pub mod operation;
pub mod outcome;
pub mod readback;
pub mod receive;
pub mod setup;
pub mod task;
pub mod transfer;
pub mod transmit;

use vstd::prelude::*;

use crate::bits::be_bytes_of;

verus! {

/// The size of an SPI transfer for `data_length` bytes, which must be a multiple of 4 bytes; a
/// length that is one already stays as it is.
pub fn round_up_spi_transfer_size(data_length: usize) -> (size: usize)
    requires
        data_length <= usize::MAX - 3,
    ensures
        size % 4 == 0,
        data_length <= size < data_length + 4,
{
    if data_length % 4 == 0 {
        data_length
    } else {
        data_length + (4 - data_length % 4)
    }
}

/// Why an access to the device failed.
#[derive(Clone, Copy, Debug, PartialEq, Eq, Structural)]
pub enum Error {
    /// Failed to read from the chip over SPI
    SPIRead,
    /// Failed to write to the chip over SPI
    SPIWrite,
    /// Attempted to access an invalid RAM address
    InvalidRamAddress(u16),
    /// Tried to read data from ram that was not a multiple of 4 bytes
    InvalidReadLength(usize),
    /// Tried to write data to ram that was not a multiple of 4 bytes
    InvalidWriteLength(usize),
    /// Tried to transmit a message through the TXQ, but the TXQ is not enabled
    TxQueueDisabled,
    /// Tried to transmit a message with a FIFO not configured for transmission
    FifoNotTx,
    /// Tried to send a message that was too big for the FIFO
    FifoTooSmall,
    /// FIFO is already full and can not take any more messages
    FifoFull,
    /// Tried to read a message from a FIFO not configured for reception
    FifoNotRx,
    /// The CRC from the chip did not match our calculated value for the data we received
    CrcMismatch,
    /// A reply did not fit what was asked for
    Other,
}

/// Why the device could not be configured.
#[derive(Clone, Copy, Debug, PartialEq, Eq, Structural)]
pub enum ConfigError {
    ChangeOpModeTimeout,
    ConfigurationModeTimeout,
    SPIFailedRAMEcho,
    PLLNotReady,
    Other(Error),
}

/// How a failed access counts while the device is being configured: a device that cannot be
/// reached did not enter Configuration mode.
pub open spec fn config_error(error: Error) -> ConfigError {
    match error {
        Error::SPIRead => ConfigError::ConfigurationModeTimeout,
        Error::SPIWrite => ConfigError::ConfigurationModeTimeout,
        _ => ConfigError::Other(error),
    }
}

impl From<Error> for ConfigError {
    fn from(error: Error) -> (converted: ConfigError) {
        match error {
            Error::SPIRead | Error::SPIWrite => ConfigError::ConfigurationModeTimeout,
            _ => ConfigError::Other(error),
        }
    }
}

impl vstd::std_specs::convert::FromSpecImpl<Error> for ConfigError {
    open spec fn obeys_from_spec() -> bool {
        true
    }

    open spec fn from_spec(error: Error) -> ConfigError {
        config_error(error)
    }
}

/// The driver of one device on the SPI bus `SPI`.
pub struct MCP2518FD<SPI> {
    spi: SPI,
    crc_protection: bool,
}

impl<SPI> MCP2518FD<SPI> {
    /// The SPI resources.
    pub closed spec fn bus(&self) -> SPI {
        self.spi
    }

    /// Whether CRC-protected SPI transfers are enabled.
    pub closed spec fn is_protected(&self) -> bool {
        self.crc_protection
    }

    /// Constructs a new driver from the SPI device it owns, without CRC protection.
    pub fn new(spi: SPI) -> (driver: MCP2518FD<SPI>)
        ensures
            driver.bus() == spi,
            !driver.is_protected(),
    {
        Self { spi, crc_protection: false }
    }

    /// Enables or disables CRC-protected SPI transfers, see [`MCP2518FD::set_crc_protection`].
    pub fn with_crc_protection(self, enabled: bool) -> (driver: Self)
        ensures
            driver.bus() == self.bus(),
            driver.is_protected() == enabled,
    {
        Self { spi: self.spi, crc_protection: enabled }
    }

    /// Enables or disables CRC-protected SPI transfers (datasheet section 4.3).
    ///
    /// When enabled, every access uses the CRC variant of the SPI instruction: reads use
    /// `READ_CRC` and are retried up to three times on a mismatch, 32-bit register writes and
    /// RAM writes use `WRITE_CRC`, and single-byte register writes use `WRITE_SAFE`, which the
    /// device verifies before committing. A write CRC failure is not visible to the caller; the
    /// device reports it through `CRC.CRCERRIF` (and `CiINT.SPICRCIF` if enabled).
    pub fn set_crc_protection(&mut self, enabled: bool)
        ensures
            final(self).bus() == old(self).bus(),
            final(self).is_protected() == enabled,
    {
        self.crc_protection = enabled;
    }

    /// Whether CRC-protected SPI transfers are enabled.
    pub fn crc_protection(&self) -> (enabled: bool)
        ensures
            enabled == self.is_protected(),
    {
        self.crc_protection
    }

    /// The SPI resources, to perform a transaction with.
    pub fn bus_mut(&mut self) -> (spi: &mut SPI)
        ensures
            *spi == old(self).bus(),
            final(self).bus() == *final(spi),
            final(self).is_protected() == old(self).is_protected(),
    {
        &mut self.spi
    }

    /// Releases ownership of the SPI resources.
    pub fn free(self) -> (spi: SPI)
        ensures
            spi == self.bus(),
    {
        self.spi
    }
}

/// The instructions that the device understands, in the upper four bits of an instruction word.
pub struct OpCode;

impl OpCode {
    pub const RESET: u16 = 0x0000;

    pub const READ: u16 = 0x3000;

    pub const WRITE: u16 = 0x2000;

    pub const READ_CRC: u16 = 0xB000;

    pub const WRITE_CRC: u16 = 0xA000;

    pub const WRITE_SAFE: u16 = 0xC000;
}

/// The instruction word with the given instruction, and the low 12 bits of the address.
pub open spec fn instruction_word(op_code: u16, address: u16) -> u16 {
    (op_code / 0x1000 * 0x1000 + address % 0x1000) as u16
}

/// An instruction word: the instruction in bits 15 to 12, an address in bits 11 to 0.
#[derive(Clone, Copy, Debug, PartialEq, Eq, Structural)]
pub struct Instruction(pub u16);

impl Instruction {
    /// The instruction, shifted to the lowest bits.
    pub fn op_code(&self) -> (op_code: u16)
        ensures
            op_code == self.0 / 0x1000,
    {
        self.0 / 0x1000
    }

    /// The address.
    pub fn address(&self) -> (address: u16)
        ensures
            address == self.0 % 0x1000,
    {
        self.0 % 0x1000
    }

    /// Replaces the address by the low 12 bits of `address`, and keeps the instruction.
    pub fn set_address(&mut self, address: u16)
        ensures
            final(self).0 == instruction_word(old(self).0, address),
            final(self).0 / 0x1000 == old(self).0 / 0x1000,
            final(self).0 % 0x1000 == address % 0x1000,
    {
        self.0 = self.0 / 0x1000 * 0x1000 + address % 0x1000;
    }

    /// The bytes of the instruction as they are sent, highest byte first.
    pub fn into_spi_data(self) -> (data: [u8; 2])
        ensures
            data@ == be_bytes_of(self.0),
    {
        [(self.0 / 0x100) as u8, (self.0 % 0x100) as u8]
    }
}

} // verus!
