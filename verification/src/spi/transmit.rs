//! Transmission of messages through the transmit queue and the transmit FIFOs.

use vstd::prelude::*;

use crate::bits::{bit, copy_range};
use crate::memory::controller::configuration::{CanControlRegister, CON_TXQEN};
use crate::memory::controller::fifo::{
    payload_bytes, ram_address, FifoControlRegister, FifoNumber, FifoStatusRegister,
    TxQueueControlRegister, TxQueueStatusRegister, UserAddressRegister, FIFOCON_TXEN,
    FIFOCON_TXREQ, FIFOSTA_TFNRFNIF, TXQCON_TXREQ, TXQSTA_TXQNIF,
};
use crate::memory::SFRAddress;
use crate::message::tx::{padded, TxMessage, TxMessageView};
use crate::spi::operation::{
    completion, completion_of, register_access, word, word_from, Action, Operation, Single,
};
use crate::spi::transfer::{Access, Progress, Reply};
use crate::spi::{round_up_spi_transfer_size, Error, MCP2518FD};

verus! {

/// Byte 1 of a FIFO/TXQ/TEF control register, which holds only UINC (bit 8), TXREQ (bit 9) and
/// FRESET (bit 10).
pub open spec fn control_byte(increment: bool, request_transmission: bool) -> u8 {
    match (increment, request_transmission) {
        (false, false) => 0,
        (true, false) => 1,
        (false, true) => 2,
        (true, true) => 3,
    }
}

/// The access that writes byte 1 of a control register.
pub open spec fn control_access(
    address: SFRAddress,
    increment: bool,
    request_transmission: bool,
) -> Access<Seq<u8>> {
    Access::WriteSfrByte(address, 1, control_byte(increment, request_transmission))
}

/// Writes byte 1 of a FIFO/TXQ/TEF control register, which holds only UINC (bit 8), TXREQ (bit 9)
/// and FRESET (bit 10).
///
/// A single-byte write avoids re-writing the configuration bits in the other bytes and halves the
/// SPI traffic of a read-modify-write. Callers must pass the current TXREQ state (or `true` to
/// request transmission): writing TXREQ as 0 while it is set requests an abort of the pending
/// transmission (Registers 3-26 and 3-29).
pub fn write_fifo_control_byte(
    address: SFRAddress,
    increment: bool,
    request_transmission: bool,
) -> (access: Access<Vec<u8>>)
    ensures
        access@ == control_access(address, increment, request_transmission),
{
    let mut value: u8 = 0;
    if increment {
        value += 1;
    }
    if request_transmission {
        value += 2;
    }
    Access::WriteSfrByte(address, 1, value)
}

/// Where messages to transmit go.
#[derive(Clone, Copy, Debug, PartialEq, Eq, Structural)]
pub enum TxTarget {
    /// The transmit queue.
    Queue,
    /// A transmit FIFO.
    Fifo(FifoNumber),
}

impl TxTarget {
    /// The control register.
    pub open spec fn control(self) -> SFRAddress {
        match self {
            TxTarget::Queue => SFRAddress::C1TXQCON,
            TxTarget::Fifo(fifo) => SFRAddress::C1FIFOCON(fifo),
        }
    }

    /// The status register.
    pub open spec fn status(self) -> SFRAddress {
        match self {
            TxTarget::Queue => SFRAddress::C1TXQSTA,
            TxTarget::Fifo(fifo) => SFRAddress::C1FIFOSTA(fifo),
        }
    }

    /// The user address register.
    pub open spec fn user_address(self) -> SFRAddress {
        match self {
            TxTarget::Queue => SFRAddress::C1TXQUA,
            TxTarget::Fifo(fifo) => SFRAddress::C1FIFOUA(fifo),
        }
    }

    /// Why a message with `data_len` bytes of payload is refused, given the control register: the
    /// FIFO must transmit, and its objects must be large enough.
    pub open spec fn refusal(self, control: u32, data_len: int) -> Option<Error> {
        if self is Fifo && !bit(control, FIFOCON_TXEN) {
            Some(Error::FifoNotTx)
        } else if payload_bytes(control) < data_len {
            Some(Error::FifoTooSmall)
        } else {
            None
        }
    }

    /// Whether there is room for a message, given the status register.
    pub open spec fn has_room(self, status: u32) -> bool {
        match self {
            TxTarget::Queue => bit(status, TXQSTA_TXQNIF),
            TxTarget::Fifo(_) => bit(status, FIFOSTA_TFNRFNIF),
        }
    }

    /// Whether transmission is requested already, given the control register.
    pub open spec fn is_requested(self, control: u32) -> bool {
        match self {
            TxTarget::Queue => bit(control, TXQCON_TXREQ),
            TxTarget::Fifo(_) => bit(control, FIFOCON_TXREQ),
        }
    }

    /// The control register.
    fn control_register(self) -> (address: SFRAddress)
        ensures
            address == self.control(),
    {
        match self {
            TxTarget::Queue => SFRAddress::C1TXQCON,
            TxTarget::Fifo(fifo) => SFRAddress::C1FIFOCON(fifo),
        }
    }

    /// The status register.
    fn status_register(self) -> (address: SFRAddress)
        ensures
            address == self.status(),
    {
        match self {
            TxTarget::Queue => SFRAddress::C1TXQSTA,
            TxTarget::Fifo(fifo) => SFRAddress::C1FIFOSTA(fifo),
        }
    }

    /// The user address register.
    fn user_address_register(self) -> (address: SFRAddress)
        ensures
            address == self.user_address(),
    {
        match self {
            TxTarget::Queue => SFRAddress::C1TXQUA,
            TxTarget::Fifo(fifo) => SFRAddress::C1FIFOUA(fifo),
        }
    }

    /// Whether a message with `data_len` bytes of payload can be taken, given the control
    /// register.
    fn check(self, control: u32, data_len: usize) -> (result: Result<(), Error>)
        ensures
            match result {
                Ok(_) => self.refusal(control, data_len as int) is None,
                Err(error) => self.refusal(control, data_len as int) == Some(error),
            },
    {
        let available: usize = match self {
            TxTarget::Queue => TxQueueControlRegister(control).payload_size().num_bytes(),
            TxTarget::Fifo(_) => {
                let register = FifoControlRegister(control);
                // Make sure it's a transmit FIFO
                if !register.txen() {
                    return Err(Error::FifoNotTx);
                }
                register.payload_size().num_bytes()
            },
        };
        // Make sure FIFO is big enough
        if available < data_len {
            return Err(Error::FifoTooSmall);
        }
        Ok(())
    }

    /// Whether there is room for a message, given the status register.
    fn accepts(self, status: u32) -> (room: bool)
        ensures
            room == self.has_room(status),
    {
        match self {
            TxTarget::Queue => TxQueueStatusRegister(status).txqnif(),
            TxTarget::Fifo(_) => FifoStatusRegister(status).tfnrfnif(),
        }
    }

    /// Whether transmission is requested already, given the control register.
    fn requested(self, control: u32) -> (requested: bool)
        ensures
            requested == self.is_requested(control),
    {
        match self {
            TxTarget::Queue => TxQueueControlRegister(control).txreq(),
            TxTarget::Fifo(_) => FifoControlRegister(control).txreq(),
        }
    }
}

/// The bytes of a message that are written to RAM: its object, with zeros up to a multiple of 4
/// bytes.
pub open spec fn stored_object(message: TxMessageView) -> Seq<u8> {
    let length = message.object().len() as int;
    padded(message.object(), (length + 3) / 4 * 4)
}

/// The bytes of a message that are written to RAM.
fn object_to_store(message: &TxMessage) -> (object: Vec<u8>)
    ensures
        object@ == stored_object(message@),
{
    let (length, bytes) = message.as_bytes();
    // The reading length has to be a multiple of 4 thus we round up the data_len
    let size: usize = round_up_spi_transfer_size(length);
    let object = copy_range(bytes.as_slice(), 0, size);
    assert(object@ =~= stored_object(message@));
    object
}

/// How far the push of a message has got.
#[derive(Clone, Copy, Debug, PartialEq, Eq, Structural)]
pub enum PushStage {
    /// Reads C1CON to see whether the transmit queue is enabled.
    Enabled,
    /// Reads the control register.
    Control,
    /// Reads the status register, having read the given control register.
    Status(u32),
    /// Reads the user address register, having read the given control register.
    Address(u32),
    /// Writes the message to the given RAM address, having read the given control register.
    Store(u32, u16),
    /// Increments the head, having read the given control register.
    Increment(u32),
}

/// A push of a message. `B` is what holds bytes.
#[derive(Debug)]
pub struct TxPush<B> {
    pub target: TxTarget,
    /// Whether to request transmission.
    pub request_transmission: bool,
    /// Payload bytes of the message.
    pub data_len: usize,
    /// The bytes that go to RAM.
    pub object: B,
    pub stage: PushStage,
}

impl View for TxPush<Vec<u8>> {
    type V = TxPush<Seq<u8>>;

    open spec fn view(&self) -> TxPush<Seq<u8>> {
        TxPush {
            target: self.target,
            request_transmission: self.request_transmission,
            data_len: self.data_len,
            object: self.object@,
            stage: self.stage,
        }
    }
}

/// The progress of a push.
pub type PushProgress<B> = Progress<TxPush<B>, Result<(), Error>>;

impl TxPush<Seq<u8>> {
    /// A push that has not begun.
    pub open spec fn start(
        target: TxTarget,
        message: TxMessageView,
        request_transmission: bool,
    ) -> TxPush<Seq<u8>> {
        TxPush {
            target,
            request_transmission,
            data_len: message.data.len() as usize,
            object: stored_object(message),
            stage: if target is Queue {
                PushStage::Enabled
            } else {
                PushStage::Control
            },
        }
    }

    /// The push at another stage.
    pub open spec fn at(self, stage: PushStage) -> TxPush<Seq<u8>> {
        TxPush { stage, ..self }
    }

    /// What to do next.
    pub open spec fn next_action(self) -> Action<Seq<u8>> {
        match self.stage {
            PushStage::Enabled => register_access(SFRAddress::C1CON, false),
            PushStage::Control => register_access(self.target.control(), false),
            PushStage::Status(_) => register_access(self.target.status(), false),
            PushStage::Address(_) => register_access(self.target.user_address(), false),
            PushStage::Store(_, address) => Action::Access(
                Access::WriteRam(address, self.object),
            ),
            // keeping any pending TXREQ
            PushStage::Increment(control) => Action::Access(
                control_access(
                    self.target.control(),
                    true,
                    self.request_transmission || self.target.is_requested(control),
                ),
            ),
        }
    }

    /// The push once the register of the current stage has been read as `raw`.
    pub open spec fn after_word(self, raw: u32) -> PushProgress<Seq<u8>> {
        match self.stage {
            PushStage::Enabled => if bit(raw, CON_TXQEN) {
                Progress::Running(self.at(PushStage::Control))
            } else {
                Progress::Finished(Err(Error::TxQueueDisabled))
            },
            PushStage::Control => match self.target.refusal(raw, self.data_len as int) {
                Some(error) => Progress::Finished(Err(error)),
                None => Progress::Running(self.at(PushStage::Status(raw))),
            },
            PushStage::Status(control) => if self.target.has_room(raw) {
                Progress::Running(self.at(PushStage::Address(control)))
            } else {
                Progress::Finished(Err(Error::FifoFull))
            },
            PushStage::Address(control) => Progress::Running(
                self.at(PushStage::Store(control, ram_address(raw) as u16)),
            ),
            _ => Progress::Finished(Err(Error::Other)),
        }
    }

    /// The push after a reply.
    pub open spec fn after(self, reply: Reply<Seq<u8>>) -> PushProgress<Seq<u8>> {
        match self.stage {
            PushStage::Store(control, _) => match completion(reply) {
                Ok(_) => Progress::Running(self.at(PushStage::Increment(control))),
                Err(error) => Progress::Finished(Err(error)),
            },
            PushStage::Increment(_) => Progress::Finished(completion(reply)),
            _ => match word(reply) {
                Ok(raw) => self.after_word(raw),
                Err(error) => Progress::Finished(Err(error)),
            },
        }
    }
}

impl TxPush<Vec<u8>> {
    /// The push at another stage.
    fn advance(self, stage: PushStage) -> (next: PushProgress<Vec<u8>>)
        ensures
            next matches Progress::Running(push) && push@ == self@.at(stage),
    {
        Progress::Running(
            TxPush {
                target: self.target,
                request_transmission: self.request_transmission,
                data_len: self.data_len,
                object: self.object,
                stage,
            },
        )
    }
}

impl Operation for TxPush<Vec<u8>> {
    type Output = Result<(), Error>;

    fn action(&self) -> (action: Action<Vec<u8>>)
        ensures
            action@ == self@.next_action(),
    {
        Action::Access(
            match self.stage {
                PushStage::Enabled => Access::ReadSfr(SFRAddress::C1CON),
                PushStage::Control => Access::ReadSfr(self.target.control_register()),
                PushStage::Status(_) => Access::ReadSfr(self.target.status_register()),
                PushStage::Address(_) => Access::ReadSfr(self.target.user_address_register()),
                PushStage::Store(_, address) => {
                    let object = copy_range(self.object.as_slice(), 0, self.object.len());
                    assert(object@ =~= self.object@);
                    Access::WriteRam(address, object)
                },
                PushStage::Increment(control) => write_fifo_control_byte(
                    self.target.control_register(),
                    true,
                    self.request_transmission || self.target.requested(control),
                ),
            },
        )
    }

    fn resume(self, reply: Reply<Vec<u8>>) -> (next: Progress<Self, Result<(), Error>>)
        ensures
            match next {
                Progress::Running(push) => self@.after(reply@)
                    == PushProgress::<Seq<u8>>::Running(push@),
                Progress::Finished(result) => self@.after(reply@)
                    == PushProgress::<Seq<u8>>::Finished(result),
            },
    {
        match self.stage {
            PushStage::Store(control, _) => match completion_of(&reply) {
                Ok(_) => self.advance(PushStage::Increment(control)),
                Err(error) => Progress::Finished(Err(error)),
            },
            PushStage::Increment(_) => Progress::Finished(completion_of(&reply)),
            PushStage::Enabled => match word_from(&reply) {
                Err(error) => Progress::Finished(Err(error)),
                // Make sure TXQ is enabled
                Ok(raw) => if CanControlRegister(raw).txqen() {
                    self.advance(PushStage::Control)
                } else {
                    Progress::Finished(Err(Error::TxQueueDisabled))
                },
            },
            PushStage::Control => match word_from(&reply) {
                Err(error) => Progress::Finished(Err(error)),
                Ok(raw) => match self.target.check(raw, self.data_len) {
                    Err(error) => Progress::Finished(Err(error)),
                    Ok(_) => self.advance(PushStage::Status(raw)),
                },
            },
            PushStage::Status(control) => match word_from(&reply) {
                Err(error) => Progress::Finished(Err(error)),
                // Make sure FIFO is not full
                Ok(raw) => if self.target.accepts(raw) {
                    self.advance(PushStage::Address(control))
                } else {
                    Progress::Finished(Err(Error::FifoFull))
                },
            },
            PushStage::Address(control) => match word_from(&reply) {
                Err(error) => Progress::Finished(Err(error)),
                Ok(raw) => self.advance(
                    PushStage::Store(control, UserAddressRegister(raw).calculate_ram_address()),
                ),
            },
        }
    }
}

/// How far the unchecked push of a message has got.
#[derive(Clone, Copy, Debug, PartialEq, Eq, Structural)]
pub enum UncheckedStage {
    /// Reads the user address register.
    Address,
    /// Writes the message to the given RAM address.
    Store(u16),
    /// Reads the control register.
    Control,
    /// Increments the head, having read the given control register.
    Increment(u32),
}

/// A push of a message into the transmit queue that checks nothing. `B` is what holds bytes.
#[derive(Debug)]
pub struct UncheckedPush<B> {
    /// The bytes that go to RAM.
    pub object: B,
    pub stage: UncheckedStage,
}

impl View for UncheckedPush<Vec<u8>> {
    type V = UncheckedPush<Seq<u8>>;

    open spec fn view(&self) -> UncheckedPush<Seq<u8>> {
        UncheckedPush { object: self.object@, stage: self.stage }
    }
}

/// The progress of an unchecked push.
pub type UncheckedProgress<B> = Progress<UncheckedPush<B>, Result<(), Error>>;

impl UncheckedPush<Seq<u8>> {
    /// A push that has not begun.
    pub open spec fn start(message: TxMessageView) -> UncheckedPush<Seq<u8>> {
        UncheckedPush { object: stored_object(message), stage: UncheckedStage::Address }
    }

    /// The push at another stage.
    pub open spec fn at(self, stage: UncheckedStage) -> UncheckedPush<Seq<u8>> {
        UncheckedPush { stage, ..self }
    }

    /// What to do next.
    pub open spec fn next_action(self) -> Action<Seq<u8>> {
        match self.stage {
            UncheckedStage::Address => register_access(SFRAddress::C1TXQUA, false),
            UncheckedStage::Store(address) => Action::Access(
                Access::WriteRam(address, self.object),
            ),
            UncheckedStage::Control => register_access(SFRAddress::C1TXQCON, false),
            // keeping any pending TXREQ
            UncheckedStage::Increment(control) => Action::Access(
                control_access(SFRAddress::C1TXQCON, true, bit(control, TXQCON_TXREQ)),
            ),
        }
    }

    /// The push after a reply.
    pub open spec fn after(self, reply: Reply<Seq<u8>>) -> UncheckedProgress<Seq<u8>> {
        match self.stage {
            UncheckedStage::Address => match word(reply) {
                Ok(raw) => Progress::Running(
                    self.at(UncheckedStage::Store(ram_address(raw) as u16)),
                ),
                Err(error) => Progress::Finished(Err(error)),
            },
            UncheckedStage::Store(_) => match completion(reply) {
                Ok(_) => Progress::Running(self.at(UncheckedStage::Control)),
                Err(error) => Progress::Finished(Err(error)),
            },
            UncheckedStage::Control => match word(reply) {
                Ok(raw) => Progress::Running(self.at(UncheckedStage::Increment(raw))),
                Err(error) => Progress::Finished(Err(error)),
            },
            UncheckedStage::Increment(_) => Progress::Finished(completion(reply)),
        }
    }
}

impl Operation for UncheckedPush<Vec<u8>> {
    type Output = Result<(), Error>;

    fn action(&self) -> (action: Action<Vec<u8>>)
        ensures
            action@ == self@.next_action(),
    {
        Action::Access(
            match self.stage {
                UncheckedStage::Address => Access::ReadSfr(SFRAddress::C1TXQUA),
                UncheckedStage::Store(address) => {
                    let object = copy_range(self.object.as_slice(), 0, self.object.len());
                    assert(object@ =~= self.object@);
                    Access::WriteRam(address, object)
                },
                UncheckedStage::Control => Access::ReadSfr(SFRAddress::C1TXQCON),
                UncheckedStage::Increment(control) => write_fifo_control_byte(
                    SFRAddress::C1TXQCON,
                    true,
                    TxQueueControlRegister(control).txreq(),
                ),
            },
        )
    }

    fn resume(self, reply: Reply<Vec<u8>>) -> (next: Progress<Self, Result<(), Error>>)
        ensures
            match next {
                Progress::Running(push) => self@.after(reply@)
                    == UncheckedProgress::<Seq<u8>>::Running(push@),
                Progress::Finished(result) => self@.after(reply@)
                    == UncheckedProgress::<Seq<u8>>::Finished(result),
            },
    {
        let stage = match self.stage {
            UncheckedStage::Address => match word_from(&reply) {
                Ok(raw) => UncheckedStage::Store(
                    UserAddressRegister(raw).calculate_ram_address(),
                ),
                Err(error) => return Progress::Finished(Err(error)),
            },
            UncheckedStage::Store(_) => match completion_of(&reply) {
                Ok(_) => UncheckedStage::Control,
                Err(error) => return Progress::Finished(Err(error)),
            },
            UncheckedStage::Control => match word_from(&reply) {
                Ok(raw) => UncheckedStage::Increment(raw),
                Err(error) => return Progress::Finished(Err(error)),
            },
            UncheckedStage::Increment(_) => return Progress::Finished(completion_of(&reply)),
        };
        Progress::Running(UncheckedPush { object: self.object, stage })
    }
}

impl<SPI> MCP2518FD<SPI> {
    /// Pushes a new message into the TXQ without setting the TXREQ bit to request transmission.
    ///
    /// Use this only if you need to queue multiple messages before transmitting all at once. To
    /// push a single message and immediately request transmission, use
    /// [`MCP2518FD::tx_queue_transmit_message`].
    pub fn tx_queue_push_message(&self, message: &TxMessage) -> (push: TxPush<Vec<u8>>)
        ensures
            push@ == TxPush::start(TxTarget::Queue, message@, false),
    {
        self.push_message(TxTarget::Queue, message, false)
    }

    /// A push that has not begun.
    fn push_message(
        &self,
        target: TxTarget,
        message: &TxMessage,
        request_transmission: bool,
    ) -> (push: TxPush<Vec<u8>>)
        ensures
            push@ == TxPush::start(target, message@, request_transmission),
    {
        TxPush {
            target,
            request_transmission,
            data_len: message.data().len(),
            object: object_to_store(message),
            stage: match target {
                TxTarget::Queue => PushStage::Enabled,
                TxTarget::Fifo(_) => PushStage::Control,
            },
        }
    }

    /// Pushes to the TXQ without reading any status registers or performing size checks. Callers
    /// should be careful to check that there is room in the TXQ. Otherwise, the oldest message
    /// will be overriden.
    pub fn tx_queue_push_message_unchecked(&self, message: &TxMessage) -> (push: UncheckedPush<
        Vec<u8>,
    >)
        ensures
            push@ == UncheckedPush::start(message@),
    {
        UncheckedPush { object: object_to_store(message), stage: UncheckedStage::Address }
    }

    /// Requests transmission of all messages in the TXQ by setting the TXREQ bit.
    ///
    /// Use this only if you already previously queued one or more messages with
    /// [`MCP2518FD::tx_queue_push_message`]. To push a single message and immediately request
    /// transmission, prefer [`MCP2518FD::tx_queue_transmit_message`].
    pub fn tx_queue_request_transmission(&self) -> (write: Single)
        ensures
            write.access@ == control_access(SFRAddress::C1TXQCON, false, true),
    {
        Single { access: write_fifo_control_byte(SFRAddress::C1TXQCON, false, true) }
    }

    /// Pushes a message into the TXQ and immediately requests transmission by setting the TXREQ
    /// bit.
    ///
    /// To push multiple messages before requesting transmission, see
    /// [`MCP2518FD::tx_queue_push_message`] and [`MCP2518FD::tx_queue_request_transmission`].
    pub fn tx_queue_transmit_message(&self, message: &TxMessage) -> (push: TxPush<Vec<u8>>)
        ensures
            push@ == TxPush::start(TxTarget::Queue, message@, true),
    {
        self.push_message(TxTarget::Queue, message, true)
    }

    /// Pushes a new message into the given TX FIFO without setting the TXREQ bit to request
    /// transmission.
    ///
    /// Use this only if you need to queue multiple messages before transmitting all at once. To
    /// push a single message and immediately request transmission, use
    /// [`MCP2518FD::tx_fifo_transmit_message`].
    pub fn tx_fifo_push_message(&self, fifo_number: FifoNumber, message: &TxMessage) -> (push:
        TxPush<Vec<u8>>)
        ensures
            push@ == TxPush::start(TxTarget::Fifo(fifo_number), message@, false),
    {
        self.push_message(TxTarget::Fifo(fifo_number), message, false)
    }

    /// Requests transmission of all messages in the given TX FIFO by setting the TXREQ bit.
    ///
    /// Use this only if you already previously queued one or more messages with
    /// [`MCP2518FD::tx_fifo_push_message`]. To push a single message and immediately request
    /// transmission, prefer [`MCP2518FD::tx_fifo_transmit_message`].
    pub fn tx_fifo_request_transmission(&self, fifo_number: FifoNumber) -> (write: Single)
        ensures
            write.access@ == control_access(SFRAddress::C1FIFOCON(fifo_number), false, true),
    {
        Single { access: write_fifo_control_byte(SFRAddress::C1FIFOCON(fifo_number), false, true) }
    }

    /// Pushes a message into the given TX FIFO and immediately requests transmission by setting
    /// the TXREQ bit.
    ///
    /// To push multiple messages before requesting transmission, see
    /// [`MCP2518FD::tx_fifo_push_message`] and [`MCP2518FD::tx_fifo_request_transmission`].
    pub fn tx_fifo_transmit_message(&self, fifo_number: FifoNumber, message: &TxMessage) -> (push:
        TxPush<Vec<u8>>)
        ensures
            push@ == TxPush::start(TxTarget::Fifo(fifo_number), message@, true),
    {
        self.push_message(TxTarget::Fifo(fifo_number), message, true)
    }
}

} // verus!
