//! A model of the device's memory, and what transfers achieve on it.
//!
//! Registers and RAM share one address space of 4096 bytes. The model describes a device whose
//! memory only changes through SPI, so it covers RAM and the registers that hardware leaves
//! alone.

use vstd::prelude::*;

use crate::bits::{
    be_bytes_of, bytes_of, lemma_byte_order, lemma_bytes_of_word_of, lemma_word_of_bytes_of,
    word_of,
};
use crate::memory::{in_ram, lemma_sfr_addresses, SFRAddress, RAM_END, RAM_START};
use crate::spi::checksum::crc16_cms;
use crate::spi::transfer::{
    checked_data, header, Access, Progress, Reply, SpiReply, SpiRequest, TransferProgressView,
    TransferView, RAM_CRC_MAX_TRANSFER_BYTES,
};
use crate::spi::{instruction_word, Error, OpCode};

verus! {

/// Size of the address space.
pub const MEMORY_SIZE: usize = 0x1000;

/// The memory after `data` has been stored from `address` on.
pub open spec fn stored(memory: Seq<u8>, address: int, data: Seq<u8>) -> Seq<u8> {
    Seq::new(
        memory.len(),
        |i: int|
            if address <= i < address + data.len() {
                data[i - address]
            } else {
                memory[i]
            },
    )
}

/// The contents of a register.
pub open spec fn register(memory: Seq<u8>, address: SFRAddress) -> u32 {
    word_of(memory.subrange(address.address() as int, address.address() + 4))
}

/// The instruction that a header carries.
pub open spec fn op_code_in(sent: Seq<u8>) -> int {
    sent[0] as int / 16 * 0x1000
}

/// The address that a header carries.
pub open spec fn address_in(sent: Seq<u8>) -> int {
    sent[0] as int % 16 * 0x100 + sent[1]
}

/// The number of bytes that a header of a CRC instruction announces: its N byte counts bytes of
/// registers, but words of RAM.
pub open spec fn length_in(sent: Seq<u8>) -> int {
    if 0x400 <= address_in(sent) < 0xC00 {
        4 * sent[2]
    } else {
        sent[2] as int
    }
}

/// What the device does with a write: the memory afterwards.
///
/// `WRITE` (0x2000) stores the data, `WRITE_CRC` (0xA000) stores it before it checks the checksum,
/// `WRITE_SAFE` (0xC000) stores it only if the checksum matches.
pub open spec fn write_executed(
    memory: Seq<u8>,
    sent: Seq<u8>,
    data: Seq<u8>,
    crc: Option<Seq<u8>>,
) -> Seq<u8> {
    let op_code = op_code_in(sent);
    let matching = crc == Some(be_bytes_of(crc16_cms(sent + data)));
    if (op_code == 0x2000 && crc is None) || (op_code == 0xA000 && crc is Some && data.len()
        == length_in(sent)) || (op_code == 0xC000 && matching) {
        stored(memory, address_in(sent), data)
    } else {
        memory
    }
}

/// What the device answers to a read: `READ` (0x3000) gives the data alone, `READ_CRC` (0xB000)
/// gives as many bytes as its N byte announces, and their checksum.
pub open spec fn read_executed(
    memory: Seq<u8>,
    sent: Seq<u8>,
    length: usize,
    checked: bool,
) -> SpiReply<Seq<u8>> {
    let op_code = op_code_in(sent);
    let data = memory.subrange(address_in(sent), address_in(sent) + length);
    if op_code == 0x3000 && !checked {
        SpiReply::Read { data, crc: Seq::empty() }
    } else if op_code == 0xB000 && checked && length == length_in(sent) {
        SpiReply::Read { data, crc: be_bytes_of(crc16_cms(sent + data)) }
    } else {
        SpiReply::Failed
    }
}

/// What the device does with a transaction: the memory afterwards, and the reply. What a reset
/// does to the memory is left out of the model.
#[verifier::opaque]
pub open spec fn executed(memory: Seq<u8>, request: SpiRequest<Seq<u8>>) -> (
    Seq<u8>,
    SpiReply<Seq<u8>>,
) {
    match request {
        SpiRequest::Command(_) => (memory, SpiReply::Written),
        SpiRequest::Write { header: sent, data, crc } => (
            write_executed(memory, sent, data, crc),
            SpiReply::Written,
        ),
        SpiRequest::Read { header: sent, length, checked } => (
            memory,
            read_executed(memory, sent, length, checked),
        ),
    }
}

/// A transfer with the device that takes at most `limit` transactions: the memory afterwards, and
/// the outcome if it is complete.
#[verifier::opaque]
pub open spec fn transacted(progress: TransferProgressView, memory: Seq<u8>, limit: nat) -> (
    Seq<u8>,
    Option<Reply<Seq<u8>>>,
)
    decreases limit,
{
    match progress {
        Progress::Finished(reply) => (memory, Some(reply)),
        Progress::Running(transfer) => if limit == 0 {
            (memory, None)
        } else {
            let (memory, reply) = executed(memory, transfer.request());
            transacted(transfer.after(reply), memory, (limit - 1) as nat)
        },
    }
}

/// Most transactions that an access takes: the RAM holds more than two times, but less than three
/// times what one CRC-protected transaction can transfer.
pub const MAX_TRANSACTIONS: usize = 3;

/// What an access is to achieve: the memory afterwards, and the outcome.
pub open spec fn accessed(memory: Seq<u8>, access: Access<Seq<u8>>) -> (Seq<u8>, Reply<Seq<u8>>) {
    match TransferView::fresh(access, false).refusal() {
        Some(error) => (memory, Reply::Failed(error)),
        None => match access {
            Access::ReadSfr(address) => (memory, Reply::Word(register(memory, address))),
            Access::ReadSfrCrc(address) => (memory, Reply::Word(register(memory, address))),
            Access::WriteSfr(address, value) => (
                stored(memory, address.address() as int, bytes_of(value)),
                Reply::Done,
            ),
            Access::WriteSfrByte(address, offset, value) => (
                stored(memory, address.address() + offset, seq![value]),
                Reply::Done,
            ),
            Access::ReadRam(address, length) => (
                memory,
                Reply::Bytes(memory.subrange(address as int, address + length)),
            ),
            Access::WriteRam(address, data) => (
                stored(memory, address as int, data),
                Reply::Done,
            ),
            Access::Reset => (memory, Reply::Done),
        },
    }
}

/// A transfer with the device goes on with what its first transaction leads to.
proof fn lemma_transacted_step(
    transfer: TransferView,
    memory: Seq<u8>,
    limit: nat,
    memory_after: Seq<u8>,
    next: TransferProgressView,
)
    requires
        limit > 0,
        memory_after == executed(memory, transfer.request()).0,
        next == transfer.after(executed(memory, transfer.request()).1),
    ensures
        transacted(Progress::Running(transfer), memory, limit) == transacted(
            next,
            memory_after,
            (limit - 1) as nat,
        ),
{
    reveal_with_fuel(transacted, 1);
}

/// A transfer that is complete has its outcome.
proof fn lemma_transacted_finished(reply: Reply<Seq<u8>>, memory: Seq<u8>, limit: nat)
    ensures
        transacted(Progress::Finished(reply), memory, limit) == (memory, Some(reply)),
{
    reveal_with_fuel(transacted, 1);
}

/// The header of an instruction carries the instruction and the address.
proof fn lemma_header(op_code: u16, address: u16)
    requires
        address < 0x1000,
        op_code % 0x1000 == 0,
    ensures
        header(op_code, address).len() == 2,
        op_code_in(header(op_code, address)) == op_code,
        address_in(header(op_code, address)) == address,
{
    let word = instruction_word(op_code, address);
    assert(word == op_code + address);
}

/// Whether a RAM read is under way and has got the data right so far.
spec fn is_reading(transfer: TransferView, memory: Seq<u8>) -> bool {
    &&& memory.len() == MEMORY_SIZE
    &&& transfer.refusal() is None
    &&& transfer.access matches Access::ReadRam(address, length)
    &&& transfer.received.len() <= length
    &&& transfer.received.len() % 4 == 0
    &&& transfer.received == memory.subrange(address as int, address + transfer.received.len())
    &&& transfer.protected ==> transfer.remaining() > 0
}

/// One transaction of a RAM read gets the next part of the data.
#[verifier::rlimit(40)]
proof fn lemma_ram_read_step(transfer: TransferView, memory: Seq<u8>, limit: nat) -> (data: Seq<u8>)
    requires
        is_reading(transfer, memory),
        limit > 0,
    ensures
        data == memory.subrange(
            transfer.access->ReadRam_0 + transfer.received.len(),
            transfer.access->ReadRam_0 + transfer.received.len() + transfer.chunk(),
        ),
        transacted(Progress::Running(transfer), memory, limit) == transacted(
            transfer.accepting(data),
            memory,
            (limit - 1) as nat,
        ),
{
    reveal(executed);
    let start = transfer.address();
    let chunk = transfer.chunk();
    lemma_header(OpCode::READ, start);
    lemma_header(OpCode::READ_CRC, start);
    let data = memory.subrange(start as int, start + chunk);
    let sent = transfer.header();
    let reply = executed(memory, transfer.request()).1;
    if transfer.protected {
        assert(sent == header(OpCode::READ_CRC, start).push((chunk / 4) as u8));
        assert(length_in(sent) == chunk);
        assert(reply == SpiReply::Read { data, crc: be_bytes_of(crc16_cms(sent + data)) });
    } else {
        assert(reply == SpiReply::Read { data, crc: Seq::<u8>::empty() });
    }
    lemma_transacted_step(transfer, memory, limit, memory, transfer.accepting(data));
    data
}

/// A RAM read that has got the data right so far gets all of it right.
proof fn lemma_ram_read(transfer: TransferView, memory: Seq<u8>, limit: nat)
    requires
        is_reading(transfer, memory),
        limit > 0,
        if transfer.protected {
            transfer.remaining() <= limit * RAM_CRC_MAX_TRANSFER_BYTES
        } else {
            transfer.received.len() == 0
        },
    ensures
        transacted(Progress::Running(transfer), memory, limit) == (
            memory,
            Some(
                Reply::Bytes(
                    memory.subrange(
                        transfer.access->ReadRam_0 as int,
                        transfer.access->ReadRam_0 + transfer.access->ReadRam_1,
                    ),
                ),
            ),
        ),
    decreases limit,
{
    let address = transfer.access->ReadRam_0;
    let length = transfer.access->ReadRam_1;
    let data = lemma_ram_read_step(transfer, memory, limit);
    let next = TransferView { retries: 0, received: transfer.received + data, ..transfer };
    assert(next.received =~= memory.subrange(address as int, address + next.received.len()));
    let left = (limit - 1) as nat;
    if next.remaining() == 0 {
        assert(transfer.accepting(data) == TransferProgressView::Finished(
            Reply::Bytes(next.received),
        ));
        lemma_transacted_finished(Reply::Bytes(next.received), memory, left);
    } else {
        assert(transfer.accepting(data) == TransferProgressView::Running(next));
        lemma_ram_read(next, memory, left);
    }
}

/// Whether a RAM write is under way and has stored the data right so far.
spec fn is_writing(transfer: TransferView, before: Seq<u8>, memory: Seq<u8>) -> bool {
    &&& before.len() == MEMORY_SIZE
    &&& transfer.refusal() is None
    &&& transfer.access matches Access::WriteRam(address, data)
    &&& 0 <= transfer.sent <= data.len()
    &&& transfer.sent % 4 == 0
    &&& memory == stored(before, address as int, data.take(transfer.sent))
    &&& transfer.protected ==> transfer.remaining() > 0
}

/// Data that is stored in two parts, one behind the other, is stored whole.
proof fn lemma_stored_in_parts(memory: Seq<u8>, address: int, data: Seq<u8>, mid: int, end: int)
    requires
        0 <= mid <= end <= data.len(),
    ensures
        stored(stored(memory, address, data.take(mid)), address + mid, data.subrange(mid, end))
            == stored(memory, address, data.take(end)),
{
    assert(stored(
        stored(memory, address, data.take(mid)),
        address + mid,
        data.subrange(mid, end),
    ) =~= stored(memory, address, data.take(end)));
}

/// One transaction of a RAM write stores the next part of the data.
#[verifier::rlimit(40)]
proof fn lemma_ram_write_step(
    transfer: TransferView,
    before: Seq<u8>,
    memory: Seq<u8>,
    limit: nat,
) -> (memory_after: Seq<u8>)
    requires
        is_writing(transfer, before, memory),
        limit > 0,
    ensures
        memory_after == stored(
            before,
            transfer.access->WriteRam_0 as int,
            transfer.access->WriteRam_1.take(transfer.sent + transfer.chunk()),
        ),
        transacted(Progress::Running(transfer), memory, limit) == transacted(
            transfer.written(),
            memory_after,
            (limit - 1) as nat,
        ),
{
    reveal(executed);
    let data = transfer.access->WriteRam_1;
    let start = transfer.address();
    let chunk = transfer.chunk();
    lemma_header(OpCode::WRITE, start);
    lemma_header(OpCode::WRITE_CRC, start);
    let part = data.subrange(transfer.sent, transfer.sent + chunk);
    let sent = transfer.header();
    let memory_after = stored(memory, start as int, part);
    if transfer.protected {
        assert(sent == header(OpCode::WRITE_CRC, start).push((chunk / 4) as u8));
        assert(length_in(sent) == chunk);
    }
    assert(executed(memory, transfer.request()).0 == memory_after);
    lemma_transacted_step(transfer, memory, limit, memory_after, transfer.written());
    lemma_stored_in_parts(
        before,
        transfer.access->WriteRam_0 as int,
        data,
        transfer.sent,
        transfer.sent + chunk,
    );
    memory_after
}

/// A RAM write that has stored the data right so far stores all of it right.
proof fn lemma_ram_write(transfer: TransferView, before: Seq<u8>, memory: Seq<u8>, limit: nat)
    requires
        is_writing(transfer, before, memory),
        limit > 0,
        if transfer.protected {
            transfer.remaining() <= limit * RAM_CRC_MAX_TRANSFER_BYTES
        } else {
            transfer.sent == 0
        },
    ensures
        transacted(Progress::Running(transfer), memory, limit) == (
            stored(before, transfer.access->WriteRam_0 as int, transfer.access->WriteRam_1),
            Some(Reply::<Seq<u8>>::Done),
        ),
    decreases limit,
{
    let data = transfer.access->WriteRam_1;
    let memory_after = lemma_ram_write_step(transfer, before, memory, limit);
    let next = TransferView { sent: transfer.sent + transfer.chunk(), ..transfer };
    let left = (limit - 1) as nat;
    if next.remaining() == 0 {
        assert(data.take(next.sent) =~= data);
        lemma_transacted_finished(Reply::Done, memory_after, left);
    } else {
        lemma_ram_write(next, before, memory_after, left);
    }
}

/// A register access takes one transaction.
#[verifier::rlimit(40)]
proof fn lemma_register_access(
    access: Access<Seq<u8>>,
    protected: bool,
    memory: Seq<u8>,
    limit: nat,
)
    requires
        memory.len() == MEMORY_SIZE,
        limit > 0,
        access is ReadSfr || access is ReadSfrCrc || access is WriteSfr || (
        access matches Access::WriteSfrByte(_, offset, _) && offset < 4),
    ensures
        transacted(Progress::Running(TransferView::fresh(access, protected)), memory, limit) == (
            accessed(memory, access).0,
            Some(accessed(memory, access).1),
        ),
{
    reveal(executed);
    let transfer = TransferView::fresh(access, protected);
    let address = transfer.address();
    match access {
        Access::ReadSfr(a) => lemma_sfr_addresses(a, a),
        Access::ReadSfrCrc(a) => lemma_sfr_addresses(a, a),
        Access::WriteSfr(a, _) => lemma_sfr_addresses(a, a),
        Access::WriteSfrByte(a, _, _) => lemma_sfr_addresses(a, a),
        _ => {},
    }
    assert(address < 0x1000 - 3 || access is WriteSfrByte);
    assert(!(RAM_START <= address < RAM_END));
    lemma_header(OpCode::READ, address);
    lemma_header(OpCode::READ_CRC, address);
    lemma_header(OpCode::WRITE, address);
    lemma_header(OpCode::WRITE_CRC, address);
    lemma_header(OpCode::WRITE_SAFE, address);
    let (memory_after, reply) = accessed(memory, access);
    let sent = transfer.header();
    if transfer.is_read() {
        let data = memory.subrange(address as int, address + 4);
        if transfer.is_checked() {
            assert(sent == header(OpCode::READ_CRC, address).push(4));
            assert(length_in(sent) == 4);
            assert(executed(memory, transfer.request()).1 == SpiReply::Read {
                data,
                crc: be_bytes_of(crc16_cms(sent + data)),
            });
        } else {
            assert(executed(memory, transfer.request()).1 == SpiReply::Read {
                data,
                crc: Seq::<u8>::empty(),
            });
        }
        assert(transfer.after(executed(memory, transfer.request()).1)
            == TransferProgressView::Finished(reply));
    } else {
        if protected && access is WriteSfr {
            assert(sent == header(OpCode::WRITE_CRC, address).push(4));
            assert(length_in(sent) == 4);
        }
        assert(executed(memory, transfer.request()).0 == memory_after);
    }
    lemma_transacted_step(
        transfer,
        memory,
        limit,
        memory_after,
        TransferProgressView::Finished(reply),
    );
    lemma_transacted_finished(reply, memory_after, (limit - 1) as nat);
}

/// With and without CRC protection, every access achieves what it is to achieve, and takes no more
/// than three transactions: a register read gives the register's contents, a write stores the
/// data at its place and nothing anywhere else, a RAM read gives the contents of the range, and a
/// refused access leaves the memory as it is.
pub proof fn lemma_access_achieved(access: Access<Seq<u8>>, protected: bool, memory: Seq<u8>)
    requires
        memory.len() == MEMORY_SIZE,
        !(access is Reset),
        access matches Access::WriteSfrByte(_, offset, _) ==> offset < 4,
    ensures
        transacted(
            TransferView::fresh(access, protected).begun(),
            memory,
            MAX_TRANSACTIONS as nat,
        ) == (accessed(memory, access).0, Some(accessed(memory, access).1)),
{
    let transfer = TransferView::fresh(access, protected);
    let limit = MAX_TRANSACTIONS as nat;
    match (transfer.refusal(), access) {
        (Some(error), _) => {
            lemma_transacted_finished(Reply::Failed(error), memory, limit);
        },
        (None, Access::ReadRam(address, length)) => {
            assert(transfer.received =~= memory.subrange(address as int, address as int));
            if protected && length == 0 {
                assert(memory.subrange(address as int, address + length) =~= transfer.received);
                lemma_transacted_finished(Reply::Bytes(transfer.received), memory, limit);
            } else {
                lemma_ram_read(transfer, memory, limit);
            }
        },
        (None, Access::WriteRam(address, data)) => {
            assert(memory =~= stored(memory, address as int, data.take(0)));
            if protected && data.len() == 0 {
                assert(memory =~= stored(memory, address as int, data));
                lemma_transacted_finished(Reply::Done, memory, limit);
            } else {
                lemma_ram_write(transfer, memory, memory, limit);
            }
        },
        _ => {
            lemma_register_access(access, protected, memory, limit);
        },
    }
}

/// What is written to RAM reads back.
pub proof fn lemma_ram_reads_back(memory: Seq<u8>, address: u16, data: Seq<u8>)
    requires
        memory.len() == MEMORY_SIZE,
        in_ram(address as int, data.len() as int),
        data.len() % 4 == 0,
    ensures
        accessed(memory, Access::WriteRam(address, data)).1 == Reply::<Seq<u8>>::Done,
        accessed(
            accessed(memory, Access::WriteRam(address, data)).0,
            Access::ReadRam(address, data.len() as usize),
        ).1 == Reply::Bytes(data),
{
    let memory_after = accessed(memory, Access::WriteRam(address, data)).0;
    assert(memory_after.subrange(address as int, address + data.len()) =~= data);
}

/// A RAM write changes no register, and no RAM outside its range.
pub proof fn lemma_ram_write_keeps_rest(
    memory: Seq<u8>,
    address: u16,
    data: Seq<u8>,
    other: SFRAddress,
    other_address: u16,
    other_length: usize,
)
    requires
        memory.len() == MEMORY_SIZE,
        other_address + other_length <= address || address + data.len() <= other_address,
    ensures
        accessed(
            accessed(memory, Access::WriteRam(address, data)).0,
            Access::ReadSfr(other),
        ).1 == accessed(memory, Access::ReadSfr(other)).1,
        accessed(
            accessed(memory, Access::WriteRam(address, data)).0,
            Access::ReadRam(other_address, other_length),
        ).1 == accessed(memory, Access::ReadRam(other_address, other_length)).1,
{
    let memory_after = accessed(memory, Access::WriteRam(address, data)).0;
    lemma_sfr_addresses(other, other);
    assert(memory_after.subrange(other.address() as int, other.address() + 4)
        =~= memory.subrange(other.address() as int, other.address() + 4));
    if in_ram(other_address as int, other_length as int) {
        assert(memory_after.subrange(other_address as int, other_address + other_length)
            =~= memory.subrange(other_address as int, other_address + other_length));
    }
}

/// A register reads back what was written to it, and the write changes no other register.
pub proof fn lemma_register_reads_back(
    memory: Seq<u8>,
    address: SFRAddress,
    value: u32,
    other: SFRAddress,
)
    requires
        memory.len() == MEMORY_SIZE,
    ensures
        register(accessed(memory, Access::WriteSfr(address, value)).0, other) == if other
            == address {
            value
        } else {
            register(memory, other)
        },
{
    let memory_after = accessed(memory, Access::WriteSfr(address, value)).0;
    lemma_sfr_addresses(address, other);
    lemma_sfr_addresses(other, address);
    let start = other.address() as int;
    if other == address {
        assert(memory_after.subrange(start, start + 4) =~= bytes_of(value));
        lemma_word_of_bytes_of(value);
    } else {
        assert(memory_after.subrange(start, start + 4) =~= memory.subrange(start, start + 4));
    }
}

/// A single-byte write changes that byte of its register, no other byte of it, and no other
/// register.
#[verifier::rlimit(40)]
pub proof fn lemma_register_byte_written(
    memory: Seq<u8>,
    address: SFRAddress,
    offset: u8,
    value: u8,
    other: SFRAddress,
)
    requires
        memory.len() == MEMORY_SIZE,
        offset < 4,
    ensures
        register(accessed(memory, Access::WriteSfrByte(address, offset, value)).0, other) == if other
            == address {
            word_of(bytes_of(register(memory, other)).update(offset as int, value))
        } else {
            register(memory, other)
        },
{
    let memory_after = accessed(memory, Access::WriteSfrByte(address, offset, value)).0;
    lemma_sfr_addresses(address, other);
    lemma_sfr_addresses(other, address);
    let start = other.address() as int;
    let before = memory.subrange(start, start + 4);
    lemma_bytes_of_word_of(before);
    if other == address {
        assert(memory_after.subrange(start, start + 4) =~= before.update(offset as int, value));
    } else {
        assert(memory_after.subrange(start, start + 4) =~= before);
    }
}

/// Whether a reply to a CRC-protected read carries a checksum that does not match.
pub open spec fn is_mismatch(transfer: TransferView, reply: SpiReply<Seq<u8>>) -> bool {
    &&& transfer.is_read()
    &&& transfer.is_checked()
    &&& reply matches SpiReply::Read { data, crc }
    &&& data.len() == transfer.read_length()
    &&& checked_data(transfer.address(), transfer.header(), data, crc) is None
}

/// A transfer after several replies, one after the other; replies to a transfer that is complete
/// change nothing.
pub open spec fn after_all(
    progress: TransferProgressView,
    replies: Seq<SpiReply<Seq<u8>>>,
) -> TransferProgressView
    decreases replies.len(),
{
    if replies.len() == 0 {
        progress
    } else {
        match after_all(progress, replies.drop_last()) {
            Progress::Running(transfer) => transfer.after(replies.last()),
            finished => finished,
        }
    }
}

/// A transfer whose current read has been repeated a number of times.
pub open spec fn repeated(transfer: TransferView, times: nat) -> TransferView {
    TransferView { retries: times as int, ..transfer }
}

/// A read whose replies carry wrong checksums is repeated three times, with the same transaction
/// each time, and then given up.
pub proof fn lemma_mismatches(transfer: TransferView, replies: Seq<SpiReply<Seq<u8>>>)
    requires
        transfer.retries == 0,
        forall|i: int|
            0 <= i < replies.len() ==> is_mismatch(transfer, #[trigger] replies[i]),
    ensures
        after_all(Progress::Running(transfer), replies) == if replies.len() <= 3 {
            TransferProgressView::Running(repeated(transfer, replies.len()))
        } else {
            TransferProgressView::Finished(Reply::Failed(Error::CrcMismatch))
        },
        repeated(transfer, replies.len()).request() == transfer.request(),
    decreases replies.len(),
{
    if replies.len() > 0 {
        let earlier = replies.drop_last();
        assert forall|i: int| 0 <= i < earlier.len() implies is_mismatch(
            transfer,
            #[trigger] earlier[i],
        ) by {
            assert(earlier[i] == replies[i]);
        }
        lemma_mismatches(transfer, earlier);
        let last = replies.last();
        assert(is_mismatch(transfer, last));
        assert(repeated(transfer, earlier.len()).request() == transfer.request());
    }
}

/// A read that is repeated goes on as if its wrong replies had not been there, once a reply is
/// right.
pub proof fn lemma_right_reply_after_mismatches(
    transfer: TransferView,
    replies: Seq<SpiReply<Seq<u8>>>,
    data: Seq<u8>,
    crc: Seq<u8>,
)
    requires
        transfer.retries == 0,
        replies.len() <= 3,
        forall|i: int|
            0 <= i < replies.len() ==> is_mismatch(transfer, #[trigger] replies[i]),
        transfer.is_read(),
        transfer.is_checked(),
        data.len() == transfer.read_length(),
        checked_data(transfer.address(), transfer.header(), data, crc) is Some,
    ensures
        after_all(
            Progress::Running(transfer),
            replies.push((SpiReply::Read { data, crc })),
        ) == transfer.after((SpiReply::Read { data, crc })),
{
    lemma_mismatches(transfer, replies);
    let all = replies.push(SpiReply::Read { data, crc });
    assert(all.drop_last() =~= replies);
}

/// A failed transaction is not repeated.
pub proof fn lemma_failure_ends_transfer(transfer: TransferView)
    ensures
        transfer.after(SpiReply::Failed) == TransferProgressView::Finished(
            Reply::Failed(
                if transfer.is_read() {
                    Error::SPIRead
                } else {
                    Error::SPIWrite
                },
            ),
        ),
{
}

/// With CRC protection every access uses the CRC variant of its instruction: reads carry a
/// checksum, register and RAM writes are checked by the device, and single-byte writes are checked
/// before they are committed. No transaction transfers more than the N byte can count.
pub proof fn lemma_protection_covers_every_access(transfer: TransferView)
    requires
        transfer.protected,
        transfer.address() < MEMORY_SIZE,
        transfer.sent >= 0,
        transfer.remaining() >= 0,
        !(transfer.access is Reset),
    ensures
        match transfer.request() {
            SpiRequest::Command(_) => false,
            SpiRequest::Read { header: sent, length, checked } => {
                &&& op_code_in(sent) == 0xB000
                &&& checked
                &&& transfer.access is ReadRam ==> length <= 4 * 255
            },
            SpiRequest::Write { header: sent, data, crc } => {
                &&& op_code_in(sent) == if transfer.access is WriteSfrByte {
                    0xC000int
                } else {
                    0xA000
                }
                &&& crc == Some(be_bytes_of(crc16_cms(sent + data)))
                &&& transfer.access is WriteRam ==> data.len() <= 4 * 255
            },
        },
{
    let address = transfer.address();
    lemma_header(OpCode::READ_CRC, address);
    lemma_header(OpCode::WRITE_CRC, address);
    lemma_header(OpCode::WRITE_SAFE, address);
}

/// A RAM access within the 2 KiB from 0x400 on, of a whole number of words, reads or writes exactly
/// the bytes of its range; any other one is refused, for its range first and then for its length,
/// and leaves the memory as it is. CRC protection makes no difference.
pub proof fn lemma_ram_access_outcome(
    address: u16,
    length: usize,
    data: Seq<u8>,
    protected: bool,
    memory: Seq<u8>,
)
    requires
        memory.len() == 0x1000,
        data.len() <= usize::MAX,
    ensures
        ({
            let read = TransferView::fresh(Access::ReadRam(address, length), protected);
            let (after, reply) = transacted(read.begun(), memory, 3);
            &&& after == memory
            &&& if address < 0x400 || address >= 0xC00 || address + length > 0xC00 {
                reply == Some(Reply::<Seq<u8>>::Failed(Error::InvalidRamAddress(address)))
            } else if length % 4 != 0 {
                reply == Some(Reply::<Seq<u8>>::Failed(Error::InvalidReadLength(length)))
            } else {
                reply matches Some(Reply::Bytes(bytes)) && bytes.len() == length && forall|i: int|
                    0 <= i < length ==> #[trigger] bytes[i] == memory[address + i]
            }
        }),
        ({
            let write = TransferView::fresh(Access::WriteRam(address, data), protected);
            let (after, reply) = transacted(write.begun(), memory, 3);
            &&& after.len() == 0x1000
            &&& if address < 0x400 || address >= 0xC00 || address + data.len() > 0xC00 {
                after == memory && reply == Some(
                    Reply::<Seq<u8>>::Failed(Error::InvalidRamAddress(address)),
                )
            } else if data.len() % 4 != 0 {
                after == memory && reply == Some(
                    Reply::<Seq<u8>>::Failed(Error::InvalidWriteLength(data.len() as usize)),
                )
            } else {
                reply == Some(Reply::<Seq<u8>>::Done) && forall|i: int|
                    0 <= i < 0x1000 ==> #[trigger] after[i] == if address <= i < address
                        + data.len() {
                        data[i - address]
                    } else {
                        memory[i]
                    }
            }
        }),
{
    lemma_access_achieved(Access::ReadRam(address, length), protected, memory);
    lemma_access_achieved(Access::WriteRam(address, data), protected, memory);
}

/// A register read gives the four bytes at the register's address, lowest first; a register write
/// stores them there, and a single-byte write stores one of them, and nothing else. CRC protection
/// makes no difference, nor does a read that always carries a checksum.
pub proof fn lemma_register_access_outcome(
    address: SFRAddress,
    value: u32,
    offset: u8,
    byte: u8,
    protected: bool,
    memory: Seq<u8>,
)
    requires
        memory.len() == 0x1000,
        offset < 4,
    ensures
        ({
            let a = address.address() as int;
            let plain = TransferView::fresh(Access::ReadSfr(address), protected);
            let checked = TransferView::fresh(Access::ReadSfrCrc(address), protected);
            let (after, reply) = transacted(plain.begun(), memory, 3);
            &&& after == memory
            &&& reply matches Some(Reply::Word(word)) && word == memory[a] + 0x100 * memory[a + 1]
                + 0x1_0000 * memory[a + 2] + 0x100_0000 * memory[a + 3]
            &&& transacted(checked.begun(), memory, 3) == (after, reply)
        }),
        ({
            let a = address.address() as int;
            let write = TransferView::fresh(Access::WriteSfr(address, value), protected);
            let (after, reply) = transacted(write.begun(), memory, 3);
            &&& reply == Some(Reply::<Seq<u8>>::Done)
            &&& after.len() == 0x1000
            &&& value == after[a] + 0x100 * after[a + 1] + 0x1_0000 * after[a + 2] + 0x100_0000
                * after[a + 3]
            &&& forall|i: int|
                0 <= i < 0x1000 && !(a <= i < a + 4) ==> #[trigger] after[i] == memory[i]
        }),
        ({
            let a = address.address() + offset;
            let write = TransferView::fresh(Access::WriteSfrByte(address, offset, byte), protected);
            let (after, reply) = transacted(write.begun(), memory, 3);
            &&& reply == Some(Reply::<Seq<u8>>::Done)
            &&& after.len() == 0x1000
            &&& after[a] == byte
            &&& forall|i: int| 0 <= i < 0x1000 && i != a ==> #[trigger] after[i] == memory[i]
        }),
{
    lemma_sfr_addresses(address, address);
    let a = address.address() as int;
    lemma_access_achieved(Access::ReadSfr(address), protected, memory);
    lemma_access_achieved(Access::ReadSfrCrc(address), protected, memory);
    lemma_access_achieved(Access::WriteSfr(address, value), protected, memory);
    lemma_access_achieved(Access::WriteSfrByte(address, offset, byte), protected, memory);
    let after = accessed(memory, Access::WriteSfr(address, value)).0;
    assert(after[a] == bytes_of(value)[0] && after[a + 1] == bytes_of(value)[1] && after[a + 2]
        == bytes_of(value)[2] && after[a + 3] == bytes_of(value)[3]);
    lemma_byte_order(value, bytes_of(value), 0);
    let bytes = memory.subrange(a, a + 4);
    lemma_byte_order(value, bytes, 0);
}

/// A reset is the instruction of two zero bytes, whatever the CRC protection.
pub proof fn lemma_reset_instruction(protected: bool)
    ensures
        ({
            let transfer = TransferView::fresh(Access::Reset, protected);
            &&& transfer.begun() == TransferProgressView::Running(transfer)
            &&& transfer.request() == SpiRequest::Command(seq![0u8, 0u8])
            &&& transfer.after(SpiReply::Written) == TransferProgressView::Finished(Reply::Done)
            &&& transfer.after(SpiReply::Failed) == TransferProgressView::Finished(
                Reply::Failed(Error::SPIWrite),
            )
        }),
{
    assert(header(OpCode::RESET, 0) =~= seq![0u8, 0u8]);
}

/// What is taken from a checked reply always has the checksum that came with it. It is the data as
/// it came; only of the time base counter it may be the data with the highest bit of the lowest
/// byte flipped, if the other bits from bit 3 on of that byte are 0. Nothing is taken only if the
/// checksum matches neither.
pub proof fn lemma_checked_data(address: u16, sent: Seq<u8>, data: Seq<u8>, crc: Seq<u8>)
    ensures
        be_bytes_of(crc16_cms(sent + data)) == crc ==> checked_data(address, sent, data, crc)
            == Some(data),
        checked_data(address, sent, data, crc) matches Some(taken) ==> be_bytes_of(
            crc16_cms(sent + taken),
        ) == crc && (taken == data || (address == 0x010 && data.len() == 4 && data[0] % 0x80 < 8
            && taken.len() == 4 && taken[0] == (data[0] + 0x80) % 0x100 && taken[1] == data[1]
            && taken[2] == data[2] && taken[3] == data[3])),
        checked_data(address, sent, data, crc) is None && address == 0x010 && data.len() == 4
            && data[0] % 0x80 < 8 ==> be_bytes_of(
            crc16_cms(sent + data.update(0, ((data[0] + 0x80) % 0x100) as u8)),
        ) != crc,
{
    let lowest = data[0];
    assert((lowest & 0xF8 == 0x00 || lowest & 0xF8 == 0x80) <==> lowest % 0x80 < 8)
        by (bit_vector);
    assert(lowest ^ 0x80 == (lowest + 0x80) % 0x100) by (bit_vector);
}

/// Each part of a long RAM read may be repeated anew.
pub proof fn lemma_parts_are_repeated_anew(transfer: TransferView, data: Seq<u8>)
    ensures
        transfer.accepting(data) matches Progress::Running(next) ==> next.retries == 0,
{
}

/// The two bytes of an instruction: the instruction in the upper four bits, the address in the
/// twelve bits below.
pub proof fn lemma_instruction_bytes(op_code: u16, address: u16)
    requires
        op_code % 0x1000 == 0,
        address < 0x1000,
    ensures
        header(op_code, address) == seq![
            (op_code / 0x100 + address / 0x100) as u8,
            (address % 0x100) as u8,
        ],
{
    assert(instruction_word(op_code, address) == op_code + address);
    assert(header(op_code, address) =~= seq![
        (op_code / 0x100 + address / 0x100) as u8,
        (address % 0x100) as u8,
    ]);
}

/// Registers lie within the address space.
proof fn lemma_register_within(address: SFRAddress, offset: u8)
    requires
        offset < 4,
    ensures
        address.address() + offset < 0x1000,
{
}

/// What goes over SPI to read a register: with a checksum, the number of bytes follows the
/// instruction. A read that always carries a checksum is the same with or without CRC protection.
pub proof fn lemma_register_read_transaction(address: SFRAddress, protected: bool)
    ensures
        ({
            let high = address.address() as int / 0x100;
            let low = (address.address() % 0x100) as u8;
            let plain = TransferView::fresh(Access::ReadSfr(address), false).request();
            let checked = TransferView::fresh(Access::ReadSfr(address), true).request();
            &&& plain == (SpiRequest::Read {
                header: seq![(0x30 + high) as u8, low],
                length: 4,
                checked: false,
            })
            &&& checked == (SpiRequest::Read {
                header: seq![(0xB0 + high) as u8, low, 4u8],
                length: 4,
                checked: true,
            })
            &&& TransferView::fresh(Access::ReadSfrCrc(address), protected).request() == checked
        }),
{
    let a = address.address();
    lemma_register_within(address, 0);
    lemma_instruction_bytes(OpCode::READ, a);
    lemma_instruction_bytes(OpCode::READ_CRC, a);
    assert(header(OpCode::READ_CRC, a).push(4) =~= seq![
        (0xB0 + a as int / 0x100) as u8,
        (a % 0x100) as u8,
        4u8,
    ]);
}

/// What goes over SPI to write a register: the bytes, lowest first; with CRC protection the number
/// of bytes follows the instruction, and the checksum of all that the bytes.
pub proof fn lemma_register_write_transaction(address: SFRAddress, value: u32)
    ensures
        ({
            let high = address.address() as int / 0x100;
            let low = (address.address() % 0x100) as u8;
            let data = seq![
                (value % 0x100) as u8,
                (value / 0x100 % 0x100) as u8,
                (value / 0x1_0000 % 0x100) as u8,
                (value / 0x100_0000) as u8,
            ];
            let sent = seq![(0xA0 + high) as u8, low, 4u8];
            &&& TransferView::fresh(Access::WriteSfr(address, value), false).request() == (
            SpiRequest::Write { header: seq![(0x20 + high) as u8, low], data, crc: None })
            &&& TransferView::fresh(Access::WriteSfr(address, value), true).request() == (
            SpiRequest::Write {
                header: sent,
                data,
                crc: Some(be_bytes_of(crc16_cms(sent + data))),
            })
        }),
{
    let a = address.address();
    lemma_register_within(address, 0);
    lemma_instruction_bytes(OpCode::WRITE, a);
    lemma_instruction_bytes(OpCode::WRITE_CRC, a);
    assert(header(OpCode::WRITE_CRC, a).push(4) =~= seq![
        (0xA0 + a as int / 0x100) as u8,
        (a % 0x100) as u8,
        4u8,
    ]);
}

/// What goes over SPI to write one byte of a register: that byte, at its own address; with CRC
/// protection the checksum follows.
pub proof fn lemma_byte_write_transaction(address: SFRAddress, offset: u8, byte: u8)
    requires
        offset < 4,
    ensures
        ({
            let high = (address.address() + offset) / 0x100;
            let low = ((address.address() + offset) % 0x100) as u8;
            let access = Access::WriteSfrByte(address, offset, byte);
            let sent = seq![(0xC0 + high) as u8, low];
            &&& TransferView::fresh(access, false).request() == (SpiRequest::Write {
                header: seq![(0x20 + high) as u8, low],
                data: seq![byte],
                crc: None,
            })
            &&& TransferView::fresh(access, true).request() == (SpiRequest::Write {
                header: sent,
                data: seq![byte],
                crc: Some(be_bytes_of(crc16_cms(sent + seq![byte]))),
            })
        }),
{
    let a = (address.address() + offset) as u16;
    lemma_register_within(address, offset);
    lemma_instruction_bytes(OpCode::WRITE, a);
    lemma_instruction_bytes(OpCode::WRITE_SAFE, a);
}

/// What goes over SPI to read or write RAM, in transactions of at most 255 words with CRC
/// protection: there the number of words follows the instruction, and the checksum the data.
pub proof fn lemma_ram_transactions(address: u16, length: usize, data: Seq<u8>)
    requires
        address < 0x1000,
    ensures
        ({
            let high = address as int / 0x100;
            let low = (address % 0x100) as u8;
            let part = if length <= 1020 {
                length
            } else {
                1020
            };
            &&& TransferView::fresh(Access::ReadRam(address, length), false).request() == (
            SpiRequest::Read {
                header: seq![(0x30 + high) as u8, low],
                length,
                checked: false,
            })
            &&& TransferView::fresh(Access::ReadRam(address, length), true).request() == (
            SpiRequest::Read {
                header: seq![(0xB0 + high) as u8, low, (part / 4) as u8],
                length: part,
                checked: true,
            })
        }),
        ({
            let high = address as int / 0x100;
            let low = (address % 0x100) as u8;
            let part = if data.len() <= 1020 {
                data
            } else {
                data.take(1020)
            };
            let sent = seq![(0xA0 + high) as u8, low, (part.len() / 4) as u8];
            &&& TransferView::fresh(Access::WriteRam(address, data), false).request() == (
            SpiRequest::Write { header: seq![(0x20 + high) as u8, low], data, crc: None })
            &&& TransferView::fresh(Access::WriteRam(address, data), true).request() == (
            SpiRequest::Write {
                header: sent,
                data: part,
                crc: Some(be_bytes_of(crc16_cms(sent + part))),
            })
        }),
{
    lemma_instruction_bytes(OpCode::READ, address);
    lemma_instruction_bytes(OpCode::READ_CRC, address);
    lemma_instruction_bytes(OpCode::WRITE, address);
    lemma_instruction_bytes(OpCode::WRITE_CRC, address);
    let read = TransferView::fresh(Access::ReadRam(address, length), true);
    assert(header(OpCode::READ_CRC, address).push((read.chunk() / 4) as u8) =~= seq![
        (0xB0 + address as int / 0x100) as u8,
        (address % 0x100) as u8,
        (read.chunk() / 4) as u8,
    ]);
    let write = TransferView::fresh(Access::WriteRam(address, data), true);
    assert(header(OpCode::WRITE_CRC, address).push((write.chunk() / 4) as u8) =~= seq![
        (0xA0 + address as int / 0x100) as u8,
        (address % 0x100) as u8,
        (write.chunk() / 4) as u8,
    ]);
    assert(data.subrange(0, data.len() as int) =~= data);
}

/// A reply that does not fit the transaction, or a read of the wrong length, ends a transfer with an
/// error.
pub proof fn lemma_unfitting_reply(transfer: TransferView, data: Seq<u8>, crc: Seq<u8>)
    ensures
        transfer.is_read() ==> transfer.after(SpiReply::Written) == TransferProgressView::Finished(
            Reply::Failed(Error::Other),
        ),
        !transfer.is_read() || data.len() != transfer.read_length() ==> transfer.after(
            (SpiReply::Read { data, crc }),
        ) == TransferProgressView::Finished(Reply::Failed(Error::Other)),
        transfer.is_read() <==> (transfer.access is ReadSfr || transfer.access is ReadSfrCrc
            || transfer.access is ReadRam),
        !(transfer.access is ReadRam) ==> transfer.read_length() == 4,
{
}

} // verus!
