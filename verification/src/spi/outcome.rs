//! What operations on messages and status result in, and what they leave behind in the device.

use vstd::prelude::*;

use crate::bits::{bit, bytes_of, lemma_byte_order};
use crate::memory::controller::fifo::{lemma_payload_bytes, payload_bytes, FifoNumber};
use crate::memory::layout::{lemma_clearable_flags, lemma_ram_bounds, lemma_user_address};
use crate::memory::{lemma_sfr_addresses, SFRAddress};
use crate::message::payload_len;
use crate::message::rx::{data_offset, lemma_object_message, object_message, RxMessageView};
use crate::message::tx::{lemma_object_layout, padded, TxEventObject, TxMessageView};
use crate::spi::device::{accessed, register, stored, MEMORY_SIZE};
use crate::spi::effect::{
    acted, event_received, lemma_event_achieved, lemma_operated_finished, lemma_operated_step,
    lemma_push_achieved, lemma_receive_achieved, lemma_unchecked_push_achieved, operated, pushed,
    received, Machine,
};
use crate::spi::operation::{
    lemma_attempts_query_clears, register_access, Action, AttemptsQuery, FlagQuery,
};
use crate::spi::receive::{object_size, EventRead, EventStage, RxQuery, RxRead};
use crate::spi::transfer::{Progress, Reply};
use crate::spi::transmit::{
    control_access, stored_object, TxPush, TxTarget, UncheckedPush, UncheckedStage,
};
use crate::spi::Error;

verus! {

impl Machine for FlagQuery {
    type Output = Result<bool, Error>;

    open spec fn asks(self) -> Action<Seq<u8>> {
        register_access(self.address(), false)
    }

    open spec fn answered(self, reply: Reply<Seq<u8>>) -> Progress<Self, Result<bool, Error>> {
        Progress::Finished(self.result(reply))
    }
}

impl Machine for RxQuery {
    type Output = Result<bool, Error>;

    open spec fn asks(self) -> Action<Seq<u8>> {
        self.next_action()
    }

    open spec fn answered(self, reply: Reply<Seq<u8>>) -> Progress<Self, Result<bool, Error>> {
        self.after(reply)
    }
}

impl Machine for AttemptsQuery {
    type Output = Result<bool, Error>;

    open spec fn asks(self) -> Action<Seq<u8>> {
        self.next_action()
    }

    open spec fn answered(self, reply: Reply<Seq<u8>>) -> Progress<Self, Result<bool, Error>> {
        self.after(reply)
    }
}

/// A question that one flag answers reads the register that holds the flag and changes nothing:
/// queue and FIFOs are empty if bit 2 of their status is set and full if bit 0 is not, and the
/// transmit event FIFO holds an event if bit 0 of its status is set.
pub proof fn lemma_flag_query_outcome(query: FlagQuery, memory: Seq<u8>)
    ensures
        operated(Progress::Running(query), memory, 1) == (
            memory,
            Some(
                Ok::<bool, Error>(
                    match query {
                        FlagQuery::TxQueueEmpty => bit(register(memory, SFRAddress::C1TXQSTA), 2),
                        FlagQuery::TxQueueFull => !bit(register(memory, SFRAddress::C1TXQSTA), 0),
                        FlagQuery::TxFifoEmpty(fifo) => bit(
                            register(memory, SFRAddress::C1FIFOSTA(fifo)),
                            2,
                        ),
                        FlagQuery::TxFifoFull(fifo) => !bit(
                            register(memory, SFRAddress::C1FIFOSTA(fifo)),
                            0,
                        ),
                        FlagQuery::TxEventPending => bit(register(memory, SFRAddress::C1TEFSTA), 0),
                    },
                ),
            ),
        ),
{
    lemma_operated_step(query, memory, 1);
    let raw = register(memory, query.address());
    assert(acted(memory, query.asks()) == (memory, Reply::<Seq<u8>>::Word(raw)));
    lemma_operated_finished::<FlagQuery>(Ok(query.answer(raw)), memory, 0);
}

/// Whether a receive FIFO holds a message is bit 0 of its status; a FIFO that transmits, as bit 7
/// of its control register says, is refused. Nothing changes.
pub proof fn lemma_rx_query_outcome(fifo: FifoNumber, memory: Seq<u8>)
    ensures
        operated(Progress::Running(RxQuery::Control(fifo)), memory, 2) == (
            memory,
            Some(
                if bit(register(memory, SFRAddress::C1FIFOCON(fifo)), 7) {
                    Err::<bool, Error>(Error::FifoNotRx)
                } else {
                    Ok::<bool, Error>(bit(register(memory, SFRAddress::C1FIFOSTA(fifo)), 0))
                },
            ),
        ),
{
    let control = register(memory, SFRAddress::C1FIFOCON(fifo));
    let status = register(memory, SFRAddress::C1FIFOSTA(fifo));
    lemma_operated_step(RxQuery::Control(fifo), memory, 2);
    assert(acted(memory, RxQuery::Control(fifo).asks()) == (
        memory,
        Reply::<Seq<u8>>::Word(control),
    ));
    if bit(control, 7) {
        lemma_operated_finished::<RxQuery>(Err(Error::FifoNotRx), memory, 1);
    } else {
        lemma_operated_step(RxQuery::Status(fifo), memory, 1);
        assert(acted(memory, RxQuery::Status(fifo).asks()) == (
            memory,
            Reply::<Seq<u8>>::Word(status),
        ));
        lemma_operated_finished::<RxQuery>(Ok(bit(status, 0)), memory, 0);
    }
}

/// Asking for exhausted attempts answers with bit 4 of the FIFO's status as it was, and writes the
/// status back with that bit at 0, the other clearable flag at 1 so that it stays as it is, and
/// everything else as it was.
pub proof fn lemma_attempts_query_outcome(fifo: FifoNumber, memory: Seq<u8>)
    ensures
        ({
            let address = SFRAddress::C1FIFOSTA(fifo);
            let raw = register(memory, address);
            let (after, result) = operated(Progress::Running(AttemptsQuery::Read(fifo)), memory, 2);
            &&& result == Some(Ok::<bool, Error>(bit(raw, 4)))
            &&& after == stored(memory, address.address() as int, bytes_of((raw | 0x18) & !0x10))
        }),
{
    let raw = register(memory, SFRAddress::C1FIFOSTA(fifo));
    let clear = AttemptsQuery::Clear(fifo, raw);
    lemma_clearable_flags();
    lemma_attempts_query_clears(fifo, raw);
    lemma_operated_step(AttemptsQuery::Read(fifo), memory, 2);
    assert(acted(memory, AttemptsQuery::Read(fifo).asks()) == (
        memory,
        Reply::<Seq<u8>>::Word(raw),
    ));
    lemma_operated_step(clear, memory, 1);
    lemma_operated_finished::<AttemptsQuery>(Ok(bit(raw, 4)), acted(memory, clear.asks()).0, 0);
}

/// Writing byte 1 of a control register sets UINC in bit 8, TXREQ in bit 9 and leaves FRESET in bit
/// 10 alone: the byte is 1 for UINC plus 2 for TXREQ. Nothing else changes.
pub proof fn lemma_control_access_outcome(
    address: SFRAddress,
    increment: bool,
    request_transmission: bool,
    memory: Seq<u8>,
)
    requires
        memory.len() == MEMORY_SIZE,
    ensures
        ({
            let access = control_access(address, increment, request_transmission);
            let (after, reply) = accessed(memory, access);
            &&& reply == Reply::<Seq<u8>>::Done
            &&& after.len() == MEMORY_SIZE
            &&& after[address.address() + 1] == (if increment {
                1int
            } else {
                0
            }) + (if request_transmission {
                2int
            } else {
                0
            })
            &&& forall|i: int|
                0 <= i < MEMORY_SIZE && i != address.address() + 1 ==> #[trigger] after[i]
                    == memory[i]
        }),
{
    lemma_sfr_addresses(address, address);
}

/// A push into a FIFO. If the FIFO does not transmit, the message is refused and
/// the device left as it is, as it is if the objects are too small for the data, if there is no
/// room, or if the object would not lie in the RAM. Otherwise the RAM holds, at the address that
/// the device asks for, the two header words, little-endian, and behind them every byte of the
/// data, with zeros up to a multiple of 4 bytes; byte 1 of the control register is written with
/// UINC set, and with TXREQ set if transmission is requested now or still pending; and nothing
/// else changes.
#[verifier::rlimit(60)]
pub proof fn lemma_fifo_push_outcome(
    fifo: FifoNumber,
    message: TxMessageView,
    request_transmission: bool,
    memory: Seq<u8>,
)
    requires
        memory.len() == MEMORY_SIZE,
        message.data.len() <= usize::MAX,
    ensures
        ({
            let push = TxPush::start(TxTarget::Fifo(fifo), message, request_transmission);
            let (after, result) = operated(Progress::Running(push), memory, 6);
            let control = register(memory, SFRAddress::C1FIFOCON(fifo));
            let status = register(memory, SFRAddress::C1FIFOSTA(fifo));
            let address = 0x400 + register(memory, SFRAddress::C1FIFOUA(fifo)) % 0x1000;
            let length = message.data.len();
            let size = (8 + length + 3) / 4 * 4;
            if !bit(control, 7) {
                &&& result == Some(Err::<(), Error>(Error::FifoNotTx))
                &&& after == memory
            } else if payload_bytes(control) < length {
                &&& result == Some(Err::<(), Error>(Error::FifoTooSmall))
                &&& after == memory
            } else if !bit(status, 0) {
                &&& result == Some(Err::<(), Error>(Error::FifoFull))
                &&& after == memory
            } else if address >= 0xC00 || address + size > 0xC00 {
                &&& result == Some(Err::<(), Error>(Error::InvalidRamAddress(address as u16)))
                &&& after == memory
            } else {
                let byte = SFRAddress::C1FIFOCON(fifo).address() + 1;
                &&& result == Some(Ok::<(), Error>(()))
                &&& after.len() == MEMORY_SIZE
                &&& message.header.0 == after[address] + 0x100 * after[address + 1] + 0x1_0000
                    * after[address + 2] + 0x100_0000 * after[address + 3]
                &&& message.header.1 == after[address + 4] + 0x100 * after[address + 5] + 0x1_0000
                    * after[address + 6] + 0x100_0000 * after[address + 7]
                &&& forall|i: int|
                    0 <= i < length ==> after[address + 8 + i] == #[trigger] message.data[i]
                &&& forall|i: int|
                    address + 8 + length <= i < address + size ==> #[trigger] after[i] == 0
                &&& after[byte] == if request_transmission || bit(control, 9) {
                    3int
                } else {
                    1
                }
                &&& forall|i: int|
                    0 <= i < MEMORY_SIZE && !(address <= i < address + size) && i != byte
                        ==> #[trigger] after[i] == memory[i]
            }
        }),
{
    let target = TxTarget::Fifo(fifo);
    let address = 0x400 + register(memory, SFRAddress::C1FIFOUA(fifo)) % 0x1000;
    let length = message.data.len() as int;
    let size = (8 + length + 3) / 4 * 4;
    lemma_push_achieved(target, message, request_transmission, memory);
    lemma_user_address(register(memory, SFRAddress::C1FIFOUA(fifo)));
    lemma_ram_bounds(address, size);
    lemma_object_layout(message, size);
    lemma_sfr_addresses(target.control(), target.control());
    let object = stored_object(message);
    assert(object == padded(message.object(), size));
    assert forall|i: int| 0 <= i < length implies object[8 + i] == #[trigger] message.data[i] by {}
    let (after, result) = pushed(memory, target, message, request_transmission);
    if result is Ok {
        assert forall|i: int| 0 <= i < size implies after[#[trigger] (address + i)]
            == object[i] by {}
        assert forall|i: int| 0 <= i < length implies after[address + 8 + i]
            == #[trigger] message.data[i] by {
            assert(after[address + (8 + i)] == object[8 + i]);
        }
        assert(after[address + 0] == object[0]);
        assert(after[address + 1] == object[1]);
        assert(after[address + 2] == object[2]);
        assert(after[address + 3] == object[3]);
        assert(after[address + 4] == object[4]);
        assert(after[address + 5] == object[5]);
        assert(after[address + 6] == object[6]);
        assert(after[address + 7] == object[7]);
        assert forall|i: int| address + 8 + length <= i < address + size implies #[trigger] after[i]
            == 0 by {
            assert(object[i - address] == 0);
        }
    }
}

/// A push into the transmit queue. If the queue is disabled, the message is refused and
/// the device left as it is, as it is if the objects are too small for the data, if there is no
/// room, or if the object would not lie in the RAM. Otherwise the RAM holds, at the address that
/// the device asks for, the two header words, little-endian, and behind them every byte of the
/// data, with zeros up to a multiple of 4 bytes; byte 1 of the control register is written with
/// UINC set, and with TXREQ set if transmission is requested now or still pending; and nothing
/// else changes.
#[verifier::rlimit(60)]
pub proof fn lemma_queue_push_outcome(
    message: TxMessageView,
    request_transmission: bool,
    memory: Seq<u8>,
)
    requires
        memory.len() == MEMORY_SIZE,
        message.data.len() <= usize::MAX,
    ensures
        ({
            let push = TxPush::start(TxTarget::Queue, message, request_transmission);
            let (after, result) = operated(Progress::Running(push), memory, 6);
            let control = register(memory, SFRAddress::C1TXQCON);
            let status = register(memory, SFRAddress::C1TXQSTA);
            let address = 0x400 + register(memory, SFRAddress::C1TXQUA) % 0x1000;
            let length = message.data.len();
            let size = (8 + length + 3) / 4 * 4;
            if !bit(register(memory, SFRAddress::C1CON), 20) {
                &&& result == Some(Err::<(), Error>(Error::TxQueueDisabled))
                &&& after == memory
            } else if payload_bytes(control) < length {
                &&& result == Some(Err::<(), Error>(Error::FifoTooSmall))
                &&& after == memory
            } else if !bit(status, 0) {
                &&& result == Some(Err::<(), Error>(Error::FifoFull))
                &&& after == memory
            } else if address >= 0xC00 || address + size > 0xC00 {
                &&& result == Some(Err::<(), Error>(Error::InvalidRamAddress(address as u16)))
                &&& after == memory
            } else {
                let byte = SFRAddress::C1TXQCON.address() + 1;
                &&& result == Some(Ok::<(), Error>(()))
                &&& after.len() == MEMORY_SIZE
                &&& message.header.0 == after[address] + 0x100 * after[address + 1] + 0x1_0000
                    * after[address + 2] + 0x100_0000 * after[address + 3]
                &&& message.header.1 == after[address + 4] + 0x100 * after[address + 5] + 0x1_0000
                    * after[address + 6] + 0x100_0000 * after[address + 7]
                &&& forall|i: int|
                    0 <= i < length ==> after[address + 8 + i] == #[trigger] message.data[i]
                &&& forall|i: int|
                    address + 8 + length <= i < address + size ==> #[trigger] after[i] == 0
                &&& after[byte] == if request_transmission || bit(control, 9) {
                    3int
                } else {
                    1
                }
                &&& forall|i: int|
                    0 <= i < MEMORY_SIZE && !(address <= i < address + size) && i != byte
                        ==> #[trigger] after[i] == memory[i]
            }
        }),
{
    let target = TxTarget::Queue;
    let address = 0x400 + register(memory, SFRAddress::C1TXQUA) % 0x1000;
    let length = message.data.len() as int;
    let size = (8 + length + 3) / 4 * 4;
    lemma_push_achieved(target, message, request_transmission, memory);
    lemma_user_address(register(memory, SFRAddress::C1TXQUA));
    lemma_ram_bounds(address, size);
    lemma_object_layout(message, size);
    lemma_sfr_addresses(target.control(), target.control());
    let object = stored_object(message);
    assert(object == padded(message.object(), size));
    assert forall|i: int| 0 <= i < length implies object[8 + i] == #[trigger] message.data[i] by {}
    let (after, result) = pushed(memory, target, message, request_transmission);
    if result is Ok {
        assert forall|i: int| 0 <= i < size implies after[#[trigger] (address + i)]
            == object[i] by {}
        assert forall|i: int| 0 <= i < length implies after[address + 8 + i]
            == #[trigger] message.data[i] by {
            assert(after[address + (8 + i)] == object[8 + i]);
        }
        assert(after[address + 0] == object[0]);
        assert(after[address + 1] == object[1]);
        assert(after[address + 2] == object[2]);
        assert(after[address + 3] == object[3]);
        assert(after[address + 4] == object[4]);
        assert(after[address + 5] == object[5]);
        assert(after[address + 6] == object[6]);
        assert(after[address + 7] == object[7]);
        assert forall|i: int| address + 8 + length <= i < address + size implies #[trigger] after[i]
            == 0 by {
            assert(object[i - address] == 0);
        }
    }
}

/// A push into the transmit queue that checks nothing stores the same as one that does, wherever
/// the device asks for it, and sets UINC without taking back a transmission request that is still
/// pending. Only an object that would not lie in the RAM is refused, and then nothing changes.
#[verifier::rlimit(60)]
pub proof fn lemma_unchecked_push_outcome(message: TxMessageView, memory: Seq<u8>)
    requires
        memory.len() == MEMORY_SIZE,
    ensures
        ({
            let push = UncheckedPush::start(message);
            let (after, result) = operated(Progress::Running(push), memory, 4);
            let control = register(memory, SFRAddress::C1TXQCON);
            let address = 0x400 + register(memory, SFRAddress::C1TXQUA) % 0x1000;
            let length = message.data.len();
            let size = (8 + length + 3) / 4 * 4;
            if address >= 0xC00 || address + size > 0xC00 {
                &&& result == Some(Err::<(), Error>(Error::InvalidRamAddress(address as u16)))
                &&& after == memory
            } else {
                let byte = SFRAddress::C1TXQCON.address() + 1;
                &&& result == Some(Ok::<(), Error>(()))
                &&& after.len() == MEMORY_SIZE
                &&& message.header.0 == after[address] + 0x100 * after[address + 1] + 0x1_0000
                    * after[address + 2] + 0x100_0000 * after[address + 3]
                &&& message.header.1 == after[address + 4] + 0x100 * after[address + 5] + 0x1_0000
                    * after[address + 6] + 0x100_0000 * after[address + 7]
                &&& forall|i: int|
                    0 <= i < length ==> after[address + 8 + i] == #[trigger] message.data[i]
                &&& forall|i: int|
                    address + 8 + length <= i < address + size ==> #[trigger] after[i] == 0
                &&& after[byte] == if bit(control, 9) {
                    3int
                } else {
                    1
                }
                &&& forall|i: int|
                    0 <= i < MEMORY_SIZE && !(address <= i < address + size) && i != byte
                        ==> #[trigger] after[i] == memory[i]
            }
        }),
{
    let push = UncheckedPush::start(message);
    let raw = register(memory, SFRAddress::C1TXQUA);
    let address = 0x400 + raw % 0x1000;
    let length = message.data.len() as int;
    let size = (8 + length + 3) / 4 * 4;
    let object = stored_object(message);
    lemma_user_address(raw);
    lemma_ram_bounds(address, size);
    lemma_object_layout(message, size);
    lemma_sfr_addresses(SFRAddress::C1TXQCON, SFRAddress::C1TXQCON);
    assert(object == padded(message.object(), size));
    if address >= 0xC00 || address + size > 0xC00 {
        let p1 = push.at(UncheckedStage::Store(address as u16));
        lemma_operated_step(push, memory, 4);
        assert(acted(memory, push.asks()) == (memory, Reply::<Seq<u8>>::Word(raw)));
        lemma_operated_step(p1, memory, 3);
        lemma_operated_finished::<UncheckedPush<Seq<u8>>>(
            Err(Error::InvalidRamAddress(address as u16)),
            memory,
            2,
        );
    } else {
        lemma_unchecked_push_achieved(message, memory);
        let after = operated(Progress::Running(push), memory, 4).0;
        assert forall|i: int| 0 <= i < size implies after[#[trigger] (address + i)]
            == object[i] by {}
        assert forall|i: int| 0 <= i < length implies after[address + 8 + i]
            == #[trigger] message.data[i] by {
            assert(after[address + (8 + i)] == object[8 + i]);
        }
        assert(after[address + 0] == object[0]);
        assert(after[address + 1] == object[1]);
        assert(after[address + 2] == object[2]);
        assert(after[address + 3] == object[3]);
        assert(after[address + 4] == object[4]);
        assert(after[address + 5] == object[5]);
        assert(after[address + 6] == object[6]);
        assert(after[address + 7] == object[7]);
        assert forall|i: int| address + 8 + length <= i < address + size implies #[trigger] after[i]
            == 0 by {
            assert(object[i - address] == 0);
        }
    }
}

/// A FIFO that transmits is refused, an empty FIFO gives nothing, and so does an object that would
/// not lie in the RAM. Otherwise the message is the one that lies at the address that the device
/// gives: the header in the first 8 bytes, the timestamp in the 4 behind them if the FIFO stores
/// timestamps, and then as many bytes of data as the data length code stands for, or as the
/// payload area holds if these are fewer; in particular the data length code is the number of
/// bytes if it is at most 8. Looking at a message changes nothing; taking it out sets UINC and
/// changes nothing else.
#[verifier::rlimit(60)]
pub proof fn lemma_receive_outcome(fifo: FifoNumber, take: bool, memory: Seq<u8>)
    requires
        memory.len() == MEMORY_SIZE,
    ensures
        ({
            let (after, result) = operated(Progress::Running(RxRead::start(fifo, take)), memory, 5);
            let control = register(memory, SFRAddress::C1FIFOCON(fifo));
            let status = register(memory, SFRAddress::C1FIFOSTA(fifo));
            let address = 0x400 + register(memory, SFRAddress::C1FIFOUA(fifo)) % 0x1000;
            let stamped = bit(control, 5);
            let start: int = if stamped {
                12
            } else {
                8
            };
            let payload = payload_bytes(control);
            if bit(control, 7) {
                &&& result == Some(Err::<Option<RxMessageView>, Error>(Error::FifoNotRx))
                &&& after == memory
            } else if !bit(status, 0) {
                &&& result == Some(Ok::<Option<RxMessageView>, Error>(None))
                &&& after == memory
            } else if address >= 0xC00 || address + start + payload > 0xC00 {
                &&& result == Some(
                    Err::<Option<RxMessageView>, Error>(Error::InvalidRamAddress(address as u16)),
                )
                &&& after == memory
            } else {
                let byte = SFRAddress::C1FIFOCON(fifo).address() + 1;
                &&& result matches Some(Ok(Some(message)))
                &&& message.header.0 == memory[address] + 0x100 * memory[address + 1] + 0x1_0000
                    * memory[address + 2] + 0x100_0000 * memory[address + 3]
                &&& message.header.1 == memory[address + 4] + 0x100 * memory[address + 5]
                    + 0x1_0000 * memory[address + 6] + 0x100_0000 * memory[address + 7]
                &&& stamped ==> (message.timestamp matches Some(timestamp) && timestamp
                    == memory[address + 8] + 0x100 * memory[address + 9] + 0x1_0000
                    * memory[address + 10] + 0x100_0000 * memory[address + 11])
                &&& !stamped ==> message.timestamp is None
                &&& ({
                    let dlc = message.header.1 % 16;
                    let length = payload_len(dlc as u8, message.header.1 / 128 % 2 == 1).unwrap();
                    &&& dlc <= 8 ==> message.data.len() == dlc
                    &&& message.data.len() == if length <= payload {
                        length as int
                    } else {
                        payload as int
                    }
                })
                &&& forall|i: int|
                    0 <= i < message.data.len() ==> #[trigger] message.data[i] == memory[address
                        + start + i]
                &&& after.len() == MEMORY_SIZE
                &&& take ==> after[byte] == 1
                &&& !take ==> after == memory
                &&& forall|i: int|
                    0 <= i < MEMORY_SIZE && i != byte ==> #[trigger] after[i] == memory[i]
            }
        }),
{
    let control = register(memory, SFRAddress::C1FIFOCON(fifo));
    let address = 0x400 + register(memory, SFRAddress::C1FIFOUA(fifo)) % 0x1000;
    let stamped = bit(control, 5);
    let payload = payload_bytes(control) as int;
    let size = object_size(control);
    lemma_receive_achieved(fifo, take, memory);
    lemma_user_address(register(memory, SFRAddress::C1FIFOUA(fifo)));
    lemma_payload_bytes(control);
    lemma_ram_bounds(address, size);
    lemma_sfr_addresses(SFRAddress::C1FIFOCON(fifo), SFRAddress::C1FIFOCON(fifo));
    if let Ok(Some(message)) = received(memory, fifo, take).1 {
        let object = memory.subrange(address, address + size);
        lemma_object_message(object, stamped, payload);
        assert(message == object_message(object, stamped, payload));
        assert(object[0] == memory[address] && object[1] == memory[address + 1] && object[2]
            == memory[address + 2] && object[3] == memory[address + 3]);
        assert(object[4] == memory[address + 4] && object[5] == memory[address + 5] && object[6]
            == memory[address + 6] && object[7] == memory[address + 7]);
        if stamped {
            assert(object[8] == memory[address + 8] && object[9] == memory[address + 9]
                && object[10] == memory[address + 10] && object[11] == memory[address + 11]);
        }
    }
}

/// An empty transmit event FIFO gives nothing, and so does an object that would not lie in the RAM.
/// Otherwise the event is the one that lies at the address that the device gives: the header in
/// the first 8 bytes, and the timestamp in the 4 behind them if the FIFO stores timestamps. Looking
/// at an event changes nothing; taking it out sets UINC and changes nothing else.
#[verifier::rlimit(60)]
pub proof fn lemma_event_outcome(take: bool, memory: Seq<u8>)
    requires
        memory.len() == MEMORY_SIZE,
    ensures
        ({
            let read = EventRead { take, stage: EventStage::Status };
            let (after, result) = operated(Progress::Running(read), memory, 5);
            let address = 0x400 + register(memory, SFRAddress::C1TEFUA) % 0x1000;
            let stamped = bit(register(memory, SFRAddress::C1TEFCON), 5);
            let size: int = if stamped {
                12
            } else {
                8
            };
            if !bit(register(memory, SFRAddress::C1TEFSTA), 0) {
                &&& result == Some(Ok::<Option<TxEventObject>, Error>(None))
                &&& after == memory
            } else if address >= 0xC00 || address + size > 0xC00 {
                &&& result == Some(
                    Err::<Option<TxEventObject>, Error>(Error::InvalidRamAddress(address as u16)),
                )
                &&& after == memory
            } else {
                let byte = SFRAddress::C1TEFCON.address() + 1;
                &&& result matches Some(Ok(Some(event)))
                &&& event.header.0 == memory[address] + 0x100 * memory[address + 1] + 0x1_0000
                    * memory[address + 2] + 0x100_0000 * memory[address + 3]
                &&& event.header.1 == memory[address + 4] + 0x100 * memory[address + 5] + 0x1_0000
                    * memory[address + 6] + 0x100_0000 * memory[address + 7]
                &&& stamped ==> (event.timestamp matches Some(timestamp) && timestamp
                    == memory[address + 8] + 0x100 * memory[address + 9] + 0x1_0000
                    * memory[address + 10] + 0x100_0000 * memory[address + 11])
                &&& !stamped ==> event.timestamp is None
                &&& after.len() == MEMORY_SIZE
                &&& take ==> after[byte] == 1
                &&& !take ==> after == memory
                &&& forall|i: int|
                    0 <= i < MEMORY_SIZE && i != byte ==> #[trigger] after[i] == memory[i]
            }
        }),
{
    let address = 0x400 + register(memory, SFRAddress::C1TEFUA) % 0x1000;
    let stamped = bit(register(memory, SFRAddress::C1TEFCON), 5);
    let size = data_offset(stamped);
    lemma_event_achieved(take, memory);
    lemma_user_address(register(memory, SFRAddress::C1TEFUA));
    lemma_ram_bounds(address, size);
    lemma_sfr_addresses(SFRAddress::C1TEFCON, SFRAddress::C1TEFCON);
    if event_received(memory, take).1 matches Ok(Some(_)) {
        let object = memory.subrange(address, address + size);
        assert(object[0] == memory[address] && object[1] == memory[address + 1] && object[2]
            == memory[address + 2] && object[3] == memory[address + 3]);
        assert(object[4] == memory[address + 4] && object[5] == memory[address + 5] && object[6]
            == memory[address + 6] && object[7] == memory[address + 7]);
        lemma_byte_order(0, object.subrange(0, 4), 0);
        lemma_byte_order(0, object.subrange(4, 8), 0);
        if stamped {
            assert(object[8] == memory[address + 8] && object[9] == memory[address + 9]
                && object[10] == memory[address + 10] && object[11] == memory[address + 11]);
            lemma_byte_order(0, object.subrange(8, 12), 0);
        }
    }
}

} // verus!
