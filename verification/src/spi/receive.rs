//! Reception of messages, and of the events that report transmissions.

use vstd::prelude::*;

use crate::bits::{bit, word_at, word_of};
use crate::memory::controller::fifo::{
    payload_bytes, ram_address, FifoControlRegister, FifoNumber, FifoStatusRegister,
    TxEventFifoControlRegister, TxEventFifoStatusRegister, UserAddressRegister, FIFOCON_RXTSEN,
    FIFOCON_TXEN, FIFOSTA_TFNRFNIF, TEFCON_TEFTSEN, TEFSTA_TEFNEIF,
};
use crate::memory::SFRAddress;
use crate::message::rx::{data_offset, object_message, parse_object, RxMessage, RxMessageView};
use crate::message::tx::{TxEventObject, TxHeader};
use crate::message::{HEADER_LEN, TIMESTAMP_LEN};
use crate::spi::operation::{
    completion, completion_of, failure, failure_of, register_access, word, word_from, Action,
    Operation,
};
use crate::spi::transfer::{Access, Progress, Reply};
use crate::spi::transmit::{control_access, write_fifo_control_byte};
use crate::spi::{Error, MCP2518FD};

verus! {

/// The question whether a receive FIFO holds a message.
#[derive(Clone, Copy, Debug, PartialEq, Eq, Structural)]
pub enum RxQuery {
    /// Reads the control register of the FIFO.
    Control(FifoNumber),
    /// Reads the status register of the FIFO.
    Status(FifoNumber),
}

impl RxQuery {
    /// What to do next.
    pub open spec fn next_action(self) -> Action<Seq<u8>> {
        match self {
            RxQuery::Control(fifo) => register_access(SFRAddress::C1FIFOCON(fifo), false),
            RxQuery::Status(fifo) => register_access(SFRAddress::C1FIFOSTA(fifo), false),
        }
    }

    /// The query after a reply.
    pub open spec fn after(self, reply: Reply<Seq<u8>>) -> Progress<Self, Result<bool, Error>> {
        match (self, word(reply)) {
            (_, Err(error)) => Progress::Finished(Err(error)),
            (RxQuery::Control(fifo), Ok(raw)) => if bit(raw, FIFOCON_TXEN) {
                Progress::Finished(Err(Error::FifoNotRx))
            } else {
                Progress::Running(RxQuery::Status(fifo))
            },
            (RxQuery::Status(_), Ok(raw)) => Progress::Finished(Ok(bit(raw, FIFOSTA_TFNRFNIF))),
        }
    }
}

impl Operation for RxQuery {
    type Output = Result<bool, Error>;

    fn action(&self) -> (action: Action<Vec<u8>>)
        ensures
            action@ == self.next_action(),
    {
        Action::Access(
            Access::ReadSfr(
                match *self {
                    RxQuery::Control(fifo) => SFRAddress::C1FIFOCON(fifo),
                    RxQuery::Status(fifo) => SFRAddress::C1FIFOSTA(fifo),
                },
            ),
        )
    }

    fn resume(self, reply: Reply<Vec<u8>>) -> (next: Progress<Self, Result<bool, Error>>)
        ensures
            next == self.after(reply@),
    {
        let raw: u32 = match word_from(&reply) {
            Ok(raw) => raw,
            Err(error) => return Progress::Finished(Err(error)),
        };
        match self {
            // Make sure it's a receive FIFO
            RxQuery::Control(fifo) => if FifoControlRegister(raw).txen() {
                Progress::Finished(Err(Error::FifoNotRx))
            } else {
                Progress::Running(RxQuery::Status(fifo))
            },
            // Check is the FIFO has any messages in it
            RxQuery::Status(_) => Progress::Finished(Ok(FifoStatusRegister(raw).tfnrfnif())),
        }
    }
}

/// How far the read of a received message has got. `M` is what holds a message.
#[derive(Debug)]
pub enum RxStage<M> {
    /// Reads the control register.
    Control,
    /// Reads the status register, having read the given control register.
    Status(u32),
    /// Reads the user address register, having read the given control register.
    Address(u32),
    /// Reads the message object at the given RAM address, having read the given control register.
    Object(u32, u16),
    /// Increments the tail, having read the message.
    Increment(M),
}

/// A read of the next message of a receive FIFO. `M` is what holds a message.
#[derive(Debug)]
pub struct RxRead<M> {
    pub fifo: FifoNumber,
    /// Whether the message is taken out of the FIFO.
    pub take: bool,
    pub stage: RxStage<M>,
}

impl View for RxRead<RxMessage> {
    type V = RxRead<RxMessageView>;

    open spec fn view(&self) -> RxRead<RxMessageView> {
        RxRead {
            fifo: self.fifo,
            take: self.take,
            stage: match self.stage {
                RxStage::Control => RxStage::Control,
                RxStage::Status(control) => RxStage::Status(control),
                RxStage::Address(control) => RxStage::Address(control),
                RxStage::Object(control, address) => RxStage::Object(control, address),
                RxStage::Increment(message) => RxStage::Increment(message@),
            },
        }
    }
}

/// The size of the message objects of a receive FIFO, given its control register: header,
/// timestamp if it stores them, and the whole payload area regardless of the DLC.
pub open spec fn object_size(control: u32) -> int {
    data_offset(bit(control, FIFOCON_RXTSEN)) + payload_bytes(control)
}

/// What the read of a received message results in. `M` is what holds a message.
pub type RxResult<M> = Result<Option<M>, Error>;

/// The progress of the read of a received message.
pub type RxProgress<M> = Progress<RxRead<M>, RxResult<M>>;

/// The progress of the read of a received message, with messages taken by what they hold.
pub open spec fn progress_view(progress: RxProgress<RxMessage>) -> RxProgress<RxMessageView> {
    match progress {
        Progress::Running(read) => Progress::Running(read@),
        Progress::Finished(Ok(Some(message))) => Progress::Finished(Ok(Some(message@))),
        Progress::Finished(Ok(None)) => Progress::Finished(Ok(None)),
        Progress::Finished(Err(error)) => Progress::Finished(Err(error)),
    }
}

impl RxRead<RxMessageView> {
    /// A read that has not begun.
    pub open spec fn start(fifo: FifoNumber, take: bool) -> RxRead<RxMessageView> {
        RxRead { fifo, take, stage: RxStage::Control }
    }

    /// The read at another stage.
    pub open spec fn at(self, stage: RxStage<RxMessageView>) -> RxRead<RxMessageView> {
        RxRead { stage, ..self }
    }

    /// What to do next.
    pub open spec fn next_action(self) -> Action<Seq<u8>> {
        match self.stage {
            RxStage::Control => register_access(SFRAddress::C1FIFOCON(self.fifo), false),
            RxStage::Status(_) => register_access(SFRAddress::C1FIFOSTA(self.fifo), false),
            RxStage::Address(_) => register_access(SFRAddress::C1FIFOUA(self.fifo), false),
            RxStage::Object(control, address) => Action::Access(
                Access::ReadRam(address, object_size(control) as usize),
            ),
            // TXREQ has no effect on a receive FIFO, so it is safe to write as 0 here.
            RxStage::Increment(_) => Action::Access(
                control_access(SFRAddress::C1FIFOCON(self.fifo), true, false),
            ),
        }
    }

    /// The read once the register of the current stage has been read as `raw`.
    pub open spec fn after_word(self, raw: u32) -> RxProgress<RxMessageView> {
        match self.stage {
            RxStage::Control => if bit(raw, FIFOCON_TXEN) {
                Progress::Finished(Err(Error::FifoNotRx))
            } else {
                Progress::Running(self.at(RxStage::Status(raw)))
            },
            RxStage::Status(control) => if bit(raw, FIFOSTA_TFNRFNIF) {
                Progress::Running(self.at(RxStage::Address(control)))
            } else {
                Progress::Finished(Ok(None))
            },
            RxStage::Address(control) => Progress::Running(
                self.at(RxStage::Object(control, ram_address(raw) as u16)),
            ),
            _ => Progress::Finished(Err(Error::Other)),
        }
    }

    /// The read once the message object has been read.
    pub open spec fn after_object(self, control: u32, object: Seq<u8>) -> RxProgress<
        RxMessageView,
    > {
        let message = object_message(
            object,
            bit(control, FIFOCON_RXTSEN),
            payload_bytes(control) as int,
        );
        if object.len() != object_size(control) {
            Progress::Finished(Err(Error::Other))
        } else if self.take {
            Progress::Running(self.at(RxStage::Increment(message)))
        } else {
            Progress::Finished(Ok(Some(message)))
        }
    }

    /// The read after a reply.
    pub open spec fn after(self, reply: Reply<Seq<u8>>) -> RxProgress<RxMessageView> {
        match self.stage {
            RxStage::Object(control, _) => match reply {
                Reply::Bytes(object) => self.after_object(control, object),
                _ => Progress::Finished(Err(failure(reply))),
            },
            RxStage::Increment(message) => match completion(reply) {
                Ok(_) => Progress::Finished(Ok(Some(message))),
                Err(error) => Progress::Finished(Err(error)),
            },
            _ => match word(reply) {
                Ok(raw) => self.after_word(raw),
                Err(error) => Progress::Finished(Err(error)),
            },
        }
    }
}

/// The size of the message objects of a receive FIFO.
fn size_of_object(control: &FifoControlRegister) -> (size: usize)
    ensures
        size == object_size(control.0),
{
    let payload: usize = control.payload_size().num_bytes();
    if control.rxtsen() {
        HEADER_LEN + TIMESTAMP_LEN + payload
    } else {
        HEADER_LEN + payload
    }
}

impl Operation for RxRead<RxMessage> {
    type Output = RxResult<RxMessage>;

    fn action(&self) -> (action: Action<Vec<u8>>)
        ensures
            action@ == self@.next_action(),
    {
        Action::Access(
            match &self.stage {
                RxStage::Control => Access::ReadSfr(SFRAddress::C1FIFOCON(self.fifo)),
                RxStage::Status(_) => Access::ReadSfr(SFRAddress::C1FIFOSTA(self.fifo)),
                RxStage::Address(_) => Access::ReadSfr(SFRAddress::C1FIFOUA(self.fifo)),
                RxStage::Object(control, address) => Access::ReadRam(
                    *address,
                    size_of_object(&FifoControlRegister(*control)),
                ),
                RxStage::Increment(_) => write_fifo_control_byte(
                    SFRAddress::C1FIFOCON(self.fifo),
                    true,
                    false,
                ),
            },
        )
    }

    fn resume(self, reply: Reply<Vec<u8>>) -> (next: Progress<Self, RxResult<RxMessage>>)
        ensures
            progress_view(next) == self@.after(reply@),
    {
        let fifo = self.fifo;
        let take = self.take;
        match self.stage {
            RxStage::Control => match word_from(&reply) {
                Err(error) => Progress::Finished(Err(error)),
                // Make sure it's a receive FIFO with data to read
                Ok(raw) => if FifoControlRegister(raw).txen() {
                    Progress::Finished(Err(Error::FifoNotRx))
                } else {
                    Progress::Running(RxRead { fifo, take, stage: RxStage::Status(raw) })
                },
            },
            RxStage::Status(control) => match word_from(&reply) {
                Err(error) => Progress::Finished(Err(error)),
                Ok(raw) => if FifoStatusRegister(raw).tfnrfnif() {
                    Progress::Running(RxRead { fifo, take, stage: RxStage::Address(control) })
                } else {
                    Progress::Finished(Ok(None))
                },
            },
            RxStage::Address(control) => match word_from(&reply) {
                Err(error) => Progress::Finished(Err(error)),
                Ok(raw) => {
                    let address: u16 = UserAddressRegister(raw).calculate_ram_address();
                    Progress::Running(
                        RxRead { fifo, take, stage: RxStage::Object(control, address) },
                    )
                },
            },
            RxStage::Object(control, _) => match &reply {
                Reply::Bytes(object) => {
                    let register = FifoControlRegister(control);
                    if object.len() != size_of_object(&register) {
                        return Progress::Finished(Err(Error::Other));
                    }
                    let message = parse_object(
                        object.as_slice(),
                        register.rxtsen(),
                        register.payload_size().num_bytes(),
                    );
                    if take {
                        Progress::Running(
                            RxRead { fifo, take, stage: RxStage::Increment(message) },
                        )
                    } else {
                        Progress::Finished(Ok(Some(message)))
                    }
                },
                _ => Progress::Finished(Err(failure_of(&reply))),
            },
            RxStage::Increment(message) => match completion_of(&reply) {
                Ok(_) => Progress::Finished(Ok(Some(message))),
                Err(error) => Progress::Finished(Err(error)),
            },
        }
    }
}

/// How far the read of a transmit event has got.
#[derive(Clone, Copy, Debug)]
pub enum EventStage {
    /// Reads the status register.
    Status,
    /// Reads the user address register.
    Address,
    /// Reads the control register, having got the given RAM address.
    Control(u16),
    /// Reads the event object, with its timestamp or without, at the given RAM address.
    Object(bool, u16),
    /// Increments the tail, having read the event.
    Increment(TxEventObject),
}

/// A read of the next event of the transmit event FIFO.
#[derive(Clone, Copy, Debug)]
pub struct EventRead {
    /// Whether the event is taken out of the FIFO.
    pub take: bool,
    pub stage: EventStage,
}

/// The progress of the read of a transmit event.
pub type EventProgress = Progress<EventRead, Result<Option<TxEventObject>, Error>>;

/// The event that an event object holds.
pub open spec fn event_of(object: Seq<u8>, with_timestamp: bool) -> TxEventObject {
    TxEventObject {
        header: TxHeader(word_of(object.subrange(0, 4)), word_of(object.subrange(4, 8))),
        timestamp: if with_timestamp {
            Some(word_of(object.subrange(8, 12)))
        } else {
            None
        },
    }
}

impl EventRead {
    /// What to do next.
    pub open spec fn next_action(self) -> Action<Seq<u8>> {
        match self.stage {
            EventStage::Status => register_access(SFRAddress::C1TEFSTA, false),
            EventStage::Address => register_access(SFRAddress::C1TEFUA, false),
            EventStage::Control(_) => register_access(SFRAddress::C1TEFCON, false),
            EventStage::Object(with_timestamp, address) => Action::Access(
                Access::ReadRam(address, data_offset(with_timestamp) as usize),
            ),
            EventStage::Increment(_) => Action::Access(
                control_access(SFRAddress::C1TEFCON, true, false),
            ),
        }
    }

    /// The read once the register of the current stage has been read as `raw`.
    pub open spec fn after_word(self, raw: u32) -> EventProgress {
        match self.stage {
            EventStage::Status => if bit(raw, TEFSTA_TEFNEIF) {
                Progress::Running(EventRead { stage: EventStage::Address, ..self })
            } else {
                Progress::Finished(Ok(None))
            },
            EventStage::Address => Progress::Running(
                EventRead { stage: EventStage::Control(ram_address(raw) as u16), ..self },
            ),
            EventStage::Control(address) => Progress::Running(
                EventRead {
                    stage: EventStage::Object(bit(raw, TEFCON_TEFTSEN), address),
                    ..self
                },
            ),
            _ => Progress::Finished(Err(Error::Other)),
        }
    }

    /// The read once the event object has been read.
    pub open spec fn after_object(self, with_timestamp: bool, object: Seq<u8>) -> EventProgress {
        let event = event_of(object, with_timestamp);
        if object.len() != data_offset(with_timestamp) {
            Progress::Finished(Err(Error::Other))
        } else if self.take {
            Progress::Running(EventRead { stage: EventStage::Increment(event), ..self })
        } else {
            Progress::Finished(Ok(Some(event)))
        }
    }

    /// The read after a reply.
    pub open spec fn after(self, reply: Reply<Seq<u8>>) -> EventProgress {
        match self.stage {
            EventStage::Object(with_timestamp, _) => match reply {
                Reply::Bytes(object) => self.after_object(with_timestamp, object),
                _ => Progress::Finished(Err(failure(reply))),
            },
            EventStage::Increment(event) => match completion(reply) {
                Ok(_) => Progress::Finished(Ok(Some(event))),
                Err(error) => Progress::Finished(Err(error)),
            },
            _ => match word(reply) {
                Ok(raw) => self.after_word(raw),
                Err(error) => Progress::Finished(Err(error)),
            },
        }
    }
}

/// Parses an event object.
fn parse_event(object: &[u8], with_timestamp: bool) -> (event: TxEventObject)
    requires
        object@.len() == data_offset(with_timestamp),
    ensures
        event == event_of(object@, with_timestamp),
{
    TxEventObject {
        header: TxHeader(word_at(object, 0), word_at(object, 4)),
        timestamp: if with_timestamp {
            Some(word_at(object, 8))
        } else {
            None
        },
    }
}

impl Operation for EventRead {
    type Output = Result<Option<TxEventObject>, Error>;

    fn action(&self) -> (action: Action<Vec<u8>>)
        ensures
            action@ == self.next_action(),
    {
        Action::Access(
            match self.stage {
                EventStage::Status => Access::ReadSfr(SFRAddress::C1TEFSTA),
                EventStage::Address => Access::ReadSfr(SFRAddress::C1TEFUA),
                EventStage::Control(_) => Access::ReadSfr(SFRAddress::C1TEFCON),
                EventStage::Object(with_timestamp, address) => Access::ReadRam(
                    address,
                    if with_timestamp {
                        HEADER_LEN + TIMESTAMP_LEN
                    } else {
                        HEADER_LEN
                    },
                ),
                EventStage::Increment(_) => write_fifo_control_byte(
                    SFRAddress::C1TEFCON,
                    true,
                    false,
                ),
            },
        )
    }

    fn resume(self, reply: Reply<Vec<u8>>) -> (next: Progress<
        Self,
        Result<Option<TxEventObject>, Error>,
    >)
        ensures
            next == self.after(reply@),
    {
        let stage = match self.stage {
            // Make sure there is data to read
            EventStage::Status => match word_from(&reply) {
                Ok(raw) => if TxEventFifoStatusRegister(raw).tefneif() {
                    EventStage::Address
                } else {
                    return Progress::Finished(Ok(None));
                },
                Err(error) => return Progress::Finished(Err(error)),
            },
            // Get the address of the next object
            EventStage::Address => match word_from(&reply) {
                Ok(raw) => EventStage::Control(UserAddressRegister(raw).calculate_ram_address()),
                Err(error) => return Progress::Finished(Err(error)),
            },
            // Read the header and, if enabled, the timestamp in one transfer
            EventStage::Control(address) => match word_from(&reply) {
                Ok(raw) => EventStage::Object(TxEventFifoControlRegister(raw).teftsen(), address),
                Err(error) => return Progress::Finished(Err(error)),
            },
            EventStage::Object(with_timestamp, _) => match &reply {
                Reply::Bytes(object) => {
                    let size: usize = if with_timestamp {
                        HEADER_LEN + TIMESTAMP_LEN
                    } else {
                        HEADER_LEN
                    };
                    if object.len() != size {
                        return Progress::Finished(Err(Error::Other));
                    }
                    let event = parse_event(object.as_slice(), with_timestamp);
                    if !self.take {
                        return Progress::Finished(Ok(Some(event)));
                    }
                    EventStage::Increment(event)
                },
                _ => return Progress::Finished(Err(failure_of(&reply))),
            },
            EventStage::Increment(event) => match completion_of(&reply) {
                Ok(_) => return Progress::Finished(Ok(Some(event))),
                Err(error) => return Progress::Finished(Err(error)),
            },
        };
        Progress::Running(EventRead { take: self.take, stage })
    }
}

impl<SPI> MCP2518FD<SPI> {
    /// If there is a message available in the TEF it will be read but the FIFO tail pointer will
    /// **NOT** be incremented.
    ///
    /// Unless you have a specific use case for this, you most likely want to use
    /// [`MCP2518FD::tx_event_fifo_get_next`].
    pub fn tx_event_fifo_peek_next(&self) -> (read: EventRead)
        ensures
            read == (EventRead { take: false, stage: EventStage::Status }),
    {
        EventRead { take: false, stage: EventStage::Status }
    }

    /// If there is a message available in the TEF it will be read and the FIFO tail pointer will
    /// be incremented to allow for the next read operation.
    ///
    /// To only check if a message is available without pulling it from the FIFO, see
    /// [`MCP2518FD::tx_event_fifo_has_next`] and [`MCP2518FD::tx_event_fifo_peek_next`].
    pub fn tx_event_fifo_get_next(&self) -> (read: EventRead)
        ensures
            read == (EventRead { take: true, stage: EventStage::Status }),
    {
        EventRead { take: true, stage: EventStage::Status }
    }

    /// Checks to see if there are any messages in the given receive FIFO.
    pub fn rx_fifo_has_next(&self, fifo_number: FifoNumber) -> (query: RxQuery)
        ensures
            query == RxQuery::Control(fifo_number),
    {
        RxQuery::Control(fifo_number)
    }

    /// If there is a message available in the given RX FIFO it will be read, but the FIFO head
    /// pointer will **NOT** be incremented.
    ///
    /// Unless you have a specific use case for this, you most likely want to use
    /// [`MCP2518FD::rx_fifo_get_next`].
    pub fn rx_fifo_peek_next(&self, fifo_number: FifoNumber) -> (read: RxRead<RxMessage>)
        ensures
            read@ == RxRead::start(fifo_number, false),
    {
        RxRead { fifo: fifo_number, take: false, stage: RxStage::Control }
    }

    /// If there is a message available in the given RX FIFO it will be read, and the FIFO head
    /// pointer will be incremented to allow for the next read operation.
    ///
    /// To only check if a message is available without pulling it from the FIFO, see
    /// [`MCP2518FD::rx_fifo_has_next`] and [`MCP2518FD::rx_fifo_peek_next`].
    pub fn rx_fifo_get_next(&self, fifo_number: FifoNumber) -> (read: RxRead<RxMessage>)
        ensures
            read@ == RxRead::start(fifo_number, true),
    {
        RxRead { fifo: fifo_number, take: true, stage: RxStage::Control }
    }
}

} // verus!
