//! Accesses to registers and RAM, and the SPI transactions that perform them.

use vstd::prelude::*;

use crate::bits::{be_bytes_of, bytes_of, copy_range, word_at, word_bytes, word_of};
use crate::memory::{in_ram, is_valid_ram_address, SFRAddress};
use crate::spi::checksum::{crc16_cms, crc_of};
use crate::spi::{instruction_word, Error, Instruction, OpCode, MCP2518FD};

verus! {

/// Number of times a CRC-protected read is repeated on a CRC mismatch before giving up.
pub const CRC_READ_RETRIES: u8 = 3;

/// The `N` field of the RAM CRC instructions counts 32-bit words in a single byte, which caps
/// one CRC-protected RAM transfer at 255 words.
pub const RAM_CRC_MAX_TRANSFER_BYTES: usize = 1020;

/// An access to the device's registers or RAM. `B` is what holds bytes.
#[derive(Debug)]
pub enum Access<B> {
    /// Reads a register.
    ReadSfr(SFRAddress),
    /// Reads a register with `READ_CRC` regardless of the CRC protection setting.
    ReadSfrCrc(SFRAddress),
    /// Writes a register.
    WriteSfr(SFRAddress, u32),
    /// Writes a single byte of a register; offset 0 is bits 7:0.
    WriteSfrByte(SFRAddress, u8, u8),
    /// Reads a number of bytes from RAM.
    ReadRam(u16, usize),
    /// Writes bytes to RAM.
    WriteRam(u16, B),
    /// Resets the device.
    Reset,
}

impl View for Access<Vec<u8>> {
    type V = Access<Seq<u8>>;

    open spec fn view(&self) -> Access<Seq<u8>> {
        match *self {
            Access::ReadSfr(address) => Access::ReadSfr(address),
            Access::ReadSfrCrc(address) => Access::ReadSfrCrc(address),
            Access::WriteSfr(address, value) => Access::WriteSfr(address, value),
            Access::WriteSfrByte(address, offset, value) => Access::WriteSfrByte(
                address,
                offset,
                value,
            ),
            Access::ReadRam(address, length) => Access::ReadRam(address, length),
            Access::WriteRam(address, data) => Access::WriteRam(address, data@),
            Access::Reset => Access::Reset,
        }
    }
}

/// The outcome of an access or a delay.
#[derive(Debug)]
pub enum Reply<B> {
    /// The register that was read.
    Word(u32),
    /// The RAM contents that were read.
    Bytes(B),
    /// What was asked for is done.
    Done,
    /// The access failed.
    Failed(Error),
}

impl View for Reply<Vec<u8>> {
    type V = Reply<Seq<u8>>;

    open spec fn view(&self) -> Reply<Seq<u8>> {
        match *self {
            Reply::Word(value) => Reply::Word(value),
            Reply::Bytes(data) => Reply::Bytes(data@),
            Reply::Done => Reply::Done,
            Reply::Failed(error) => Reply::Failed(error),
        }
    }
}

/// One SPI transaction.
#[derive(Debug)]
pub enum SpiRequest<B> {
    /// Sends a bare instruction.
    Command(B),
    /// Sends a header, then data, then a checksum if there is one.
    Write { header: B, data: B, crc: Option<B> },
    /// Sends a header, then reads `length` bytes, then two bytes of checksum if `checked` is
    /// set.
    Read { header: B, length: usize, checked: bool },
}

impl View for SpiRequest<Vec<u8>> {
    type V = SpiRequest<Seq<u8>>;

    open spec fn view(&self) -> SpiRequest<Seq<u8>> {
        match *self {
            SpiRequest::Command(header) => SpiRequest::Command(header@),
            SpiRequest::Write { header, data, crc } => SpiRequest::Write {
                header: header@,
                data: data@,
                crc: match crc {
                    Some(crc) => Some(crc@),
                    None => None,
                },
            },
            SpiRequest::Read { header, length, checked } => SpiRequest::Read {
                header: header@,
                length,
                checked,
            },
        }
    }
}

/// The outcome of one SPI transaction.
#[derive(Debug)]
pub enum SpiReply<B> {
    /// Everything was sent.
    Written,
    /// What was read, and the checksum behind it if there is one.
    Read { data: B, crc: B },
    /// The transaction failed.
    Failed,
}

impl View for SpiReply<Vec<u8>> {
    type V = SpiReply<Seq<u8>>;

    open spec fn view(&self) -> SpiReply<Seq<u8>> {
        match *self {
            SpiReply::Written => SpiReply::Written,
            SpiReply::Read { data, crc } => SpiReply::Read { data: data@, crc: crc@ },
            SpiReply::Failed => SpiReply::Failed,
        }
    }
}

/// Where something that goes on in steps has got to.
#[derive(Debug)]
pub enum Progress<M, T> {
    /// It waits for the outcome of its next step.
    Running(M),
    /// It is done, with a result.
    Finished(T),
}

impl<M: View, T: View> View for Progress<M, T> {
    type V = Progress<M::V, T::V>;

    open spec fn view(&self) -> Progress<M::V, T::V> {
        match *self {
            Progress::Running(machine) => Progress::Running(machine@),
            Progress::Finished(result) => Progress::Finished(result@),
        }
    }
}

/// The bytes of an instruction.
pub open spec fn header(op_code: u16, address: u16) -> Seq<u8> {
    be_bytes_of(instruction_word(op_code, address))
}

/// `READ`: the device answers with `length` bytes from `address` on.
pub open spec fn plain_read(address: u16, length: usize) -> SpiRequest<Seq<u8>> {
    SpiRequest::Read { header: header(OpCode::READ, address), length, checked: false }
}

/// `WRITE`: the device stores `data` from `address` on.
pub open spec fn plain_write(address: u16, data: Seq<u8>) -> SpiRequest<Seq<u8>> {
    SpiRequest::Write { header: header(OpCode::WRITE, address), data, crc: None }
}

/// `READ_CRC`: the device answers with `length` bytes and their checksum. `n_field` is the
/// instruction's N byte: bytes for register accesses, 32-bit words for RAM accesses.
pub open spec fn crc_read(address: u16, n_field: u8, length: usize) -> SpiRequest<Seq<u8>> {
    let sent = header(OpCode::READ_CRC, address).push(n_field);
    SpiRequest::Read { header: sent, length, checked: true }
}

/// `WRITE_CRC`: the device stores `data`, then checks the checksum of header and data.
pub open spec fn crc_write(address: u16, n_field: u8, data: Seq<u8>) -> SpiRequest<Seq<u8>> {
    let sent = header(OpCode::WRITE_CRC, address).push(n_field);
    SpiRequest::Write { header: sent, data, crc: Some(be_bytes_of(crc16_cms(sent + data))) }
}

/// `WRITE_SAFE`: the device stores `data` only if the checksum of header and data matches.
pub open spec fn safe_write(address: u16, data: Seq<u8>) -> SpiRequest<Seq<u8>> {
    let sent = header(OpCode::WRITE_SAFE, address);
    SpiRequest::Write { header: sent, data, crc: Some(be_bytes_of(crc16_cms(sent + data))) }
}

/// The data with bit 7 of its first byte flipped.
pub open spec fn flipped(data: Seq<u8>) -> Seq<u8> {
    data.update(0, data[0] ^ 0x80)
}

/// Whether data read from `address` may carry the checksum of its flipped form: the counter
/// C1TBC, with a lowest byte from 0x00 to 0x07 or from 0x80 to 0x87.
pub open spec fn may_be_flipped(address: u16, data: Seq<u8>) -> bool {
    address == SFRAddress::C1TBC.address() && data.len() == 4 && (data[0] & 0xF8 == 0x00 || data[0]
        & 0xF8 == 0x80)
}

/// The data that a `READ_CRC` delivers, if its checksum matches.
///
/// A `READ_CRC` of C1TBC sometimes carries a checksum computed over the lowest byte with bit 7
/// flipped, and then the flipped data is the correct value.
pub open spec fn checked_data(address: u16, sent: Seq<u8>, data: Seq<u8>, crc: Seq<u8>) -> Option<
    Seq<u8>,
> {
    if be_bytes_of(crc16_cms(sent + data)) == crc {
        Some(data)
    } else if may_be_flipped(address, data) && be_bytes_of(crc16_cms(sent + flipped(data)))
        == crc {
        Some(flipped(data))
    } else {
        None
    }
}

/// A transfer that is under way.
pub ghost struct TransferView {
    /// What is to be done.
    pub access: Access<Seq<u8>>,
    /// Whether CRC protection is enabled.
    pub protected: bool,
    /// How often the current read has been repeated.
    pub retries: int,
    /// Bytes written to RAM so far.
    pub sent: int,
    /// Bytes read from RAM so far.
    pub received: Seq<u8>,
}

/// The progress of a transfer.
pub type TransferProgressView = Progress<TransferView, Reply<Seq<u8>>>;

impl TransferView {
    /// A transfer that has not begun.
    pub open spec fn fresh(access: Access<Seq<u8>>, protected: bool) -> TransferView {
        TransferView { access, protected, retries: 0, sent: 0, received: Seq::empty() }
    }

    /// Why the access is refused: RAM accesses must lie within the RAM and have a length that is
    /// a multiple of 4.
    pub open spec fn refusal(self) -> Option<Error> {
        match self.access {
            Access::ReadRam(address, length) => if !in_ram(address as int, length as int) {
                Some(Error::InvalidRamAddress(address))
            } else if length % 4 != 0 {
                Some(Error::InvalidReadLength(length))
            } else {
                None
            },
            Access::WriteRam(address, data) => if !in_ram(address as int, data.len() as int) {
                Some(Error::InvalidRamAddress(address))
            } else if data.len() % 4 != 0 {
                Some(Error::InvalidWriteLength(data.len() as usize))
            } else {
                None
            },
            _ => None,
        }
    }

    /// Whether the access reads.
    pub open spec fn is_read(self) -> bool {
        self.access is ReadSfr || self.access is ReadSfrCrc || self.access is ReadRam
    }

    /// Whether replies carry a checksum.
    pub open spec fn is_checked(self) -> bool {
        self.protected || self.access is ReadSfrCrc
    }

    /// Bytes of RAM that are still to be read or written.
    pub open spec fn remaining(self) -> int {
        match self.access {
            Access::ReadRam(_, length) => length - self.received.len(),
            Access::WriteRam(_, data) => data.len() - self.sent,
            _ => 0,
        }
    }

    /// Bytes of RAM in the next transaction: long CRC-protected transfers are split.
    pub open spec fn chunk(self) -> int {
        if self.protected && self.remaining() > RAM_CRC_MAX_TRANSFER_BYTES {
            RAM_CRC_MAX_TRANSFER_BYTES as int
        } else {
            self.remaining()
        }
    }

    /// The address in the next transaction.
    pub open spec fn address(self) -> u16 {
        match self.access {
            Access::ReadSfr(address) => address.address(),
            Access::ReadSfrCrc(address) => address.address(),
            Access::WriteSfr(address, _) => address.address(),
            Access::WriteSfrByte(address, offset, _) => (address.address() + offset) as u16,
            Access::ReadRam(address, _) => (address + self.received.len()) as u16,
            Access::WriteRam(address, _) => (address + self.sent) as u16,
            Access::Reset => 0,
        }
    }

    /// The next transaction.
    pub open spec fn request(self) -> SpiRequest<Seq<u8>> {
        match self.access {
            Access::ReadSfr(_) | Access::ReadSfrCrc(_) => if self.is_checked() {
                crc_read(self.address(), 4, 4)
            } else {
                plain_read(self.address(), 4)
            },
            Access::WriteSfr(_, value) => if self.protected {
                crc_write(self.address(), 4, bytes_of(value))
            } else {
                plain_write(self.address(), bytes_of(value))
            },
            Access::WriteSfrByte(_, _, value) => if self.protected {
                safe_write(self.address(), seq![value])
            } else {
                plain_write(self.address(), seq![value])
            },
            Access::ReadRam(_, _) => if self.protected {
                crc_read(self.address(), (self.chunk() / 4) as u8, self.chunk() as usize)
            } else {
                plain_read(self.address(), self.chunk() as usize)
            },
            Access::WriteRam(_, data) => {
                let part = data.subrange(self.sent, self.sent + self.chunk());
                if self.protected {
                    crc_write(self.address(), (self.chunk() / 4) as u8, part)
                } else {
                    plain_write(self.address(), part)
                }
            },
            Access::Reset => SpiRequest::Command(header(OpCode::RESET, 0)),
        }
    }

    /// The header of the next transaction.
    pub open spec fn header(self) -> Seq<u8> {
        match self.request() {
            SpiRequest::Command(sent) => sent,
            SpiRequest::Write { header: sent, .. } => sent,
            SpiRequest::Read { header: sent, .. } => sent,
        }
    }

    /// Number of bytes that the next transaction reads.
    pub open spec fn read_length(self) -> int {
        if self.access is ReadRam {
            self.chunk()
        } else {
            4
        }
    }

    /// A refused access ends with its error, and a CRC-protected RAM access of no bytes needs no
    /// transaction.
    pub open spec fn begun(self) -> TransferProgressView {
        match (self.refusal(), self.access) {
            (Some(error), _) => Progress::Finished(Reply::Failed(error)),
            (None, Access::ReadRam(_, _)) => if self.protected && self.remaining() == 0 {
                Progress::Finished(Reply::Bytes(self.received))
            } else {
                Progress::Running(self)
            },
            (None, Access::WriteRam(_, _)) => if self.protected && self.remaining() == 0 {
                Progress::Finished(Reply::Done)
            } else {
                Progress::Running(self)
            },
            _ => Progress::Running(self),
        }
    }

    /// The transfer once `data` has been read and found correct.
    pub open spec fn accepting(self, data: Seq<u8>) -> TransferProgressView {
        match self.access {
            Access::ReadRam(_, _) => {
                let next = TransferView { retries: 0, received: self.received + data, ..self };
                if next.remaining() == 0 {
                    Progress::Finished(Reply::Bytes(next.received))
                } else {
                    Progress::Running(next)
                }
            },
            _ => Progress::Finished(Reply::Word(word_of(data))),
        }
    }

    /// The transfer once the current transaction's data has been written.
    pub open spec fn written(self) -> TransferProgressView {
        match self.access {
            Access::WriteRam(_, _) => {
                let next = TransferView { sent: self.sent + self.chunk(), ..self };
                if next.remaining() == 0 {
                    Progress::Finished(Reply::Done)
                } else {
                    Progress::Running(next)
                }
            },
            _ => Progress::Finished(Reply::Done),
        }
    }

    /// The transfer after a reply to its current transaction. A read with a wrong checksum is
    /// repeated; a failed transaction is not.
    pub open spec fn after(self, reply: SpiReply<Seq<u8>>) -> TransferProgressView {
        match reply {
            SpiReply::Failed => Progress::Finished(
                Reply::Failed(
                    if self.is_read() {
                        Error::SPIRead
                    } else {
                        Error::SPIWrite
                    },
                ),
            ),
            SpiReply::Written => if self.is_read() {
                Progress::Finished(Reply::Failed(Error::Other))
            } else {
                self.written()
            },
            SpiReply::Read { data, crc } => if !self.is_read() || data.len()
                != self.read_length() {
                Progress::Finished(Reply::Failed(Error::Other))
            } else if !self.is_checked() {
                self.accepting(data)
            } else {
                match checked_data(self.address(), self.header(), data, crc) {
                    Some(correct) => self.accepting(correct),
                    None => if self.retries < CRC_READ_RETRIES {
                        Progress::Running(TransferView { retries: self.retries + 1, ..self })
                    } else {
                        Progress::Finished(Reply::Failed(Error::CrcMismatch))
                    },
                }
            },
        }
    }
}

/// The bytes of an instruction at an address.
fn encode_instruction(op_code: u16, address: u16) -> (sent: Vec<u8>)
    ensures
        sent@ == header(op_code, address),
{
    let mut instruction = Instruction(op_code);
    instruction.set_address(address);
    let data = instruction.into_spi_data();
    let mut sent: Vec<u8> = Vec::new();
    sent.push(data[0]);
    sent.push(data[1]);
    assert(sent@ =~= header(op_code, address));
    sent
}

/// The two bytes of a checksum, highest byte first.
fn checksum_bytes(crc: u16) -> (bytes: Vec<u8>)
    ensures
        bytes@ == be_bytes_of(crc),
{
    let mut bytes: Vec<u8> = Vec::new();
    bytes.push((crc / 0x100) as u8);
    bytes.push((crc % 0x100) as u8);
    bytes
}

/// Whether `crc` is the checksum of `sent` and `data`.
fn is_checksum_of(crc: &Vec<u8>, sent: &Vec<u8>, data: &Vec<u8>) -> (matches: bool)
    ensures
        matches == (be_bytes_of(crc16_cms(sent@ + data@)) == crc@),
{
    let expected = checksum_bytes(crc_of(sent.as_slice(), data.as_slice()));
    if crc.len() == 2 && crc[0] == expected[0] && crc[1] == expected[1] {
        assert(crc@ =~= expected@);
        true
    } else {
        false
    }
}

/// Issues `READ_CRC`. `n_field` is the instruction's N byte: bytes for register accesses, 32-bit
/// words for RAM accesses.
pub fn read_crc_transfer(address: u16, n_field: u8, length: usize) -> (request: SpiRequest<Vec<u8>>)
    ensures
        request@ == crc_read(address, n_field, length),
{
    let mut sent = encode_instruction(OpCode::READ_CRC, address);
    sent.push(n_field);
    SpiRequest::Read { header: sent, length, checked: true }
}

/// Issues `WRITE_CRC`: the device writes the data, then checks the CRC and raises `CRC.CRCERRIF`
/// on a mismatch. `n_field` is the instruction's N byte: bytes for register accesses, 32-bit
/// words for RAM accesses.
pub fn write_crc_transfer(address: u16, n_field: u8, data: Vec<u8>) -> (request: SpiRequest<
    Vec<u8>,
>)
    ensures
        request@ == crc_write(address, n_field, data@),
{
    let mut sent = encode_instruction(OpCode::WRITE_CRC, address);
    sent.push(n_field);
    let crc = checksum_bytes(crc_of(sent.as_slice(), data.as_slice()));
    SpiRequest::Write { header: sent, data, crc: Some(crc) }
}

/// Issues `WRITE_SAFE`, which the device only commits if the CRC matches. Takes exactly one byte
/// for a register (section 4.3.4) or one 4-byte word for RAM (section 4.3.7).
pub fn write_safe_transfer(address: u16, data: Vec<u8>) -> (request: SpiRequest<Vec<u8>>)
    requires
        data@.len() == 1 || data@.len() == 4,
    ensures
        request@ == safe_write(address, data@),
{
    let sent = encode_instruction(OpCode::WRITE_SAFE, address);
    let crc = checksum_bytes(crc_of(sent.as_slice(), data.as_slice()));
    SpiRequest::Write { header: sent, data, crc: Some(crc) }
}

/// Issues `READ`.
fn read_transfer(address: u16, length: usize) -> (request: SpiRequest<Vec<u8>>)
    ensures
        request@ == plain_read(address, length),
{
    SpiRequest::Read { header: encode_instruction(OpCode::READ, address), length, checked: false }
}

/// Issues `WRITE`.
fn write_transfer(address: u16, data: Vec<u8>) -> (request: SpiRequest<Vec<u8>>)
    ensures
        request@ == plain_write(address, data@),
{
    SpiRequest::Write { header: encode_instruction(OpCode::WRITE, address), data, crc: None }
}

/// Checks the reply to a `READ_CRC` of `address` with the header `sent`, and hands out the data
/// if it is correct.
pub fn check_read(address: u16, sent: &Vec<u8>, data: Vec<u8>, crc: &Vec<u8>) -> (checked: Option<
    Vec<u8>,
>)
    ensures
        match checked {
            Some(correct) => checked_data(address, sent@, data@, crc@) == Some(correct@),
            None => checked_data(address, sent@, data@, crc@) is None,
        },
{
    if is_checksum_of(crc, sent, &data) {
        return Some(data);
    }
    if address == SFRAddress::C1TBC.to_address() && data.len() == 4 && (data[0] & 0xF8 == 0x00
        || data[0] & 0xF8 == 0x80) {
        let mut corrected = data;
        let lowest: u8 = corrected[0] ^ 0x80;
        corrected.set(0, lowest);
        if is_checksum_of(crc, sent, &corrected) {
            return Some(corrected);
        }
    }
    None
}

/// An access that is being performed: it waits for the reply to its [`Transfer::request`].
#[derive(Debug)]
pub struct Transfer {
    access: Access<Vec<u8>>,
    protected: bool,
    retries: u8,
    sent: usize,
    received: Vec<u8>,
}

/// The progress of a transfer.
pub type TransferProgress = Progress<Transfer, Reply<Vec<u8>>>;

impl View for Transfer {
    type V = TransferView;

    closed spec fn view(&self) -> TransferView {
        TransferView {
            access: self.access@,
            protected: self.protected,
            retries: self.retries as int,
            sent: self.sent as int,
            received: self.received@,
        }
    }
}

impl Transfer {
    #[verifier::type_invariant]
    spec fn is_possible(self) -> bool {
        &&& self@.refusal() is None
        &&& self.retries <= CRC_READ_RETRIES
        &&& match self.access {
            Access::ReadRam(_, length) => self.received@.len() <= length,
            Access::WriteRam(_, data) => self.sent <= data@.len(),
            _ => true,
        }
    }

    /// Bytes of RAM in the next transaction.
    fn chunk_length(&self, remaining: usize) -> (length: usize)
        requires
            remaining == self@.remaining(),
        ensures
            length == self@.chunk(),
    {
        if self.protected && remaining > RAM_CRC_MAX_TRANSFER_BYTES {
            RAM_CRC_MAX_TRANSFER_BYTES
        } else {
            remaining
        }
    }

    /// The transaction to perform next.
    pub fn request(&self) -> (request: SpiRequest<Vec<u8>>)
        ensures
            request@ == self@.request(),
    {
        proof {
            use_type_invariant(self);
        }
        match &self.access {
            Access::ReadSfr(address) => self.read_sfr(*address),
            Access::ReadSfrCrc(address) => read_crc_transfer(address.to_address(), 4, 4),
            Access::WriteSfr(address, value) => self.write_sfr(*address, *value),
            Access::WriteSfrByte(address, offset, value) => self.write_sfr_byte(
                *address,
                *offset,
                *value,
            ),
            Access::ReadRam(address, length) => {
                let length: usize = self.chunk_length(*length - self.received.len());
                let start: u16 = *address + self.received.len() as u16;
                if self.protected {
                    read_crc_transfer(start, (length / 4) as u8, length)
                } else {
                    read_transfer(start, length)
                }
            },
            Access::WriteRam(address, data) => {
                let length: usize = self.chunk_length(data.len() - self.sent);
                let start: u16 = *address + self.sent as u16;
                let part = copy_range(data.as_slice(), self.sent, self.sent + length);
                if self.protected {
                    write_crc_transfer(start, (length / 4) as u8, part)
                } else {
                    write_transfer(start, part)
                }
            },
            Access::Reset => SpiRequest::Command(encode_instruction(OpCode::RESET, 0)),
        }
    }

    /// For register accesses the N field counts bytes (section 4.3.2).
    fn read_sfr(&self, address: SFRAddress) -> (request: SpiRequest<Vec<u8>>)
        ensures
            request@ == if self@.protected {
                crc_read(address.address(), 4, 4)
            } else {
                plain_read(address.address(), 4)
            },
    {
        if self.protected {
            read_crc_transfer(address.to_address(), 4, 4)
        } else {
            read_transfer(address.to_address(), 4)
        }
    }

    /// The instruction is big-endian on the wire, the register contents little-endian.
    fn write_sfr(&self, address: SFRAddress, value: u32) -> (request: SpiRequest<Vec<u8>>)
        ensures
            request@ == if self@.protected {
                crc_write(address.address(), 4, bytes_of(value))
            } else {
                plain_write(address.address(), bytes_of(value))
            },
    {
        let bytes = word_bytes(value);
        if self.protected {
            write_crc_transfer(address.to_address(), 4, bytes)
        } else {
            write_transfer(address.to_address(), bytes)
        }
    }

    /// Writes a single byte of a register; `byte_offset` 0 is bits 7:0 (register access is
    /// byte-oriented, see datasheet section 4.1).
    fn write_sfr_byte(&self, address: SFRAddress, byte_offset: u8, value: u8) -> (request:
        SpiRequest<Vec<u8>>)
        ensures
            request@ == if self@.protected {
                safe_write((address.address() + byte_offset) as u16, seq![value])
            } else {
                plain_write((address.address() + byte_offset) as u16, seq![value])
            },
    {
        let byte_address: u16 = address.to_address() + byte_offset as u16;
        let mut data: Vec<u8> = Vec::new();
        data.push(value);
        assert(data@ =~= seq![value]);
        if self.protected {
            write_safe_transfer(byte_address, data)
        } else {
            write_transfer(byte_address, data)
        }
    }

    /// Goes on with data that has been read and found correct.
    fn accept(self, data: Vec<u8>) -> (next: TransferProgress)
        requires
            self@.is_read(),
            data@.len() == self@.read_length(),
        ensures
            next@ == self@.accepting(data@),
    {
        proof {
            use_type_invariant(&self);
        }
        match self.access {
            Access::ReadRam(address, length) => {
                let mut received = self.received;
                let mut data = data;
                received.append(&mut data);
                if received.len() == length {
                    Progress::Finished(Reply::Bytes(received))
                } else {
                    Progress::Running(
                        Transfer {
                            access: Access::ReadRam(address, length),
                            protected: self.protected,
                            retries: 0,
                            sent: self.sent,
                            received,
                        },
                    )
                }
            },
            _ => Progress::Finished(Reply::Word(word_at(data.as_slice(), 0))),
        }
    }

    /// Goes on after the current transaction's data has been written.
    fn advance(self) -> (next: TransferProgress)
        requires
            !self@.is_read(),
        ensures
            next@ == self@.written(),
    {
        proof {
            use_type_invariant(&self);
        }
        let chunk: usize = match &self.access {
            Access::WriteRam(_, data) => self.chunk_length(data.len() - self.sent),
            _ => 0,
        };
        match self.access {
            Access::WriteRam(address, data) => {
                let sent: usize = self.sent + chunk;
                if sent == data.len() {
                    Progress::Finished(Reply::Done)
                } else {
                    Progress::Running(
                        Transfer {
                            access: Access::WriteRam(address, data),
                            protected: self.protected,
                            retries: self.retries,
                            sent,
                            received: self.received,
                        },
                    )
                }
            },
            _ => Progress::Finished(Reply::Done),
        }
    }

    /// Whether the access reads.
    fn reads(&self) -> (value: bool)
        ensures
            value == self@.is_read(),
    {
        match &self.access {
            Access::ReadSfr(_) | Access::ReadSfrCrc(_) | Access::ReadRam(_, _) => true,
            _ => false,
        }
    }

    /// Goes on after a reply to the current transaction.
    ///
    /// A `READ_CRC` is retried on a CRC mismatch.
    pub fn resume(self, reply: SpiReply<Vec<u8>>) -> (next: TransferProgress)
        ensures
            next@ == self@.after(reply@),
    {
        proof {
            use_type_invariant(&self);
        }
        let reads = self.reads();
        match reply {
            SpiReply::Failed => Progress::Finished(
                Reply::Failed(
                    if reads {
                        Error::SPIRead
                    } else {
                        Error::SPIWrite
                    },
                ),
            ),
            SpiReply::Written => if reads {
                Progress::Finished(Reply::Failed(Error::Other))
            } else {
                self.advance()
            },
            SpiReply::Read { data, crc } => {
                let request = self.request();
                match request {
                    SpiRequest::Read { header: sent, length, checked } => {
                        if data.len() != length {
                            return Progress::Finished(Reply::Failed(Error::Other));
                        }
                        if !checked {
                            return self.accept(data);
                        }
                        let address: u16 = self.current_address();
                        match check_read(address, &sent, data, &crc) {
                            Some(correct) => self.accept(correct),
                            None => if self.retries < CRC_READ_RETRIES {
                                Progress::Running(
                                    Transfer {
                                        access: self.access,
                                        protected: self.protected,
                                        retries: self.retries + 1,
                                        sent: self.sent,
                                        received: self.received,
                                    },
                                )
                            } else {
                                Progress::Finished(Reply::Failed(Error::CrcMismatch))
                            },
                        }
                    },
                    _ => Progress::Finished(Reply::Failed(Error::Other)),
                }
            },
        }
    }

    /// The address that the current transaction reads from.
    fn current_address(&self) -> (address: u16)
        requires
            self@.is_read(),
        ensures
            address == self@.address(),
    {
        proof {
            use_type_invariant(self);
        }
        match &self.access {
            Access::ReadSfr(address) => address.to_address(),
            Access::ReadSfrCrc(address) => address.to_address(),
            Access::ReadRam(address, _) => *address + self.received.len() as u16,
            _ => 0,
        }
    }
}

impl<SPI> MCP2518FD<SPI> {
    /// Begins an access, or refuses it.
    pub fn begin(&self, access: Access<Vec<u8>>) -> (progress: TransferProgress)
        ensures
            progress@ == TransferView::fresh(access@, self.is_protected()).begun(),
    {
        let protected = self.crc_protection();
        match &access {
            Access::ReadRam(address, length) => {
                if !is_valid_ram_address(*address as u32, *length) {
                    return Progress::Finished(Reply::Failed(Error::InvalidRamAddress(*address)));
                }
                if *length % 4 != 0 {
                    return Progress::Finished(Reply::Failed(Error::InvalidReadLength(*length)));
                }
                if protected && *length == 0 {
                    return Progress::Finished(Reply::Bytes(Vec::new()));
                }
            },
            Access::WriteRam(address, data) => {
                if !is_valid_ram_address(*address as u32, data.len()) {
                    return Progress::Finished(Reply::Failed(Error::InvalidRamAddress(*address)));
                }
                if data.len() % 4 != 0 {
                    return Progress::Finished(
                        Reply::Failed(Error::InvalidWriteLength(data.len())),
                    );
                }
                if protected && data.len() == 0 {
                    return Progress::Finished(Reply::Done);
                }
            },
            _ => {},
        }
        Progress::Running(
            Transfer { access, protected, retries: 0, sent: 0, received: Vec::new() },
        )
    }
}

} // verus!
