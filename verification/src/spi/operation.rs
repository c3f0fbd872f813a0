//! Operations on the device that go on in steps: each step is an access or a delay, and its
//! outcome decides what comes next.

use core::marker::PhantomData;

use vstd::prelude::*;

use crate::bits::{bit, copy_range, field, with_bit};
use crate::memory::controller::configuration::{
    CanControlRegister, OperationMode, TimeBaseCounterRegister, CON_OPMOD,
};
use crate::memory::controller::fifo::{
    FifoNumber, FifoStatusRegister, TxEventFifoStatusRegister, TxQueueStatusRegister,
    FIFOSTA_TFERFFIF, FIFOSTA_TFNRFNIF, FIFOSTA_TXATIF, TEFSTA_TEFNEIF, TXQSTA_TXQEIF,
    TXQSTA_TXQNIF,
};
use crate::memory::controller::interrupt::{
    InterruptCodeRegister, InterruptRegister, RxInterruptStatusRegister,
    RxOverflowInterruptStatusRegister, TxAttemptInterruptStatusRegister, TxInterruptStatusRegister,
};
use crate::memory::{ClearableFlags, Register, RegisterValue, RepeatedRegister, SFRAddress};
use crate::spi::modify::clearing_word;
use crate::spi::transfer::{Access, Progress, Reply};
use crate::spi::{Error, MCP2518FD};

verus! {

/// What an operation asks for.
#[derive(Debug)]
pub enum Action<B> {
    /// An access to the device.
    Access(Access<B>),
    /// A pause of a number of microseconds, whose outcome is [`Reply::Done`].
    Delay(u32),
}

impl View for Action<Vec<u8>> {
    type V = Action<Seq<u8>>;

    open spec fn view(&self) -> Action<Seq<u8>> {
        match *self {
            Action::Access(access) => Action::Access(access@),
            Action::Delay(us) => Action::Delay(us),
        }
    }
}

/// An operation that waits for the outcome of its current action.
pub trait Operation: Sized {
    /// What the operation results in.
    type Output;

    /// What to do next.
    fn action(&self) -> Action<Vec<u8>>;

    /// Goes on after the outcome of the current action.
    fn resume(self, reply: Reply<Vec<u8>>) -> Progress<Self, Self::Output>;
}

/// The error behind a reply that an operation cannot use.
pub open spec fn failure(reply: Reply<Seq<u8>>) -> Error {
    match reply {
        Reply::Failed(error) => error,
        _ => Error::Other,
    }
}

/// The error behind a reply that an operation cannot use.
pub fn failure_of(reply: &Reply<Vec<u8>>) -> (error: Error)
    ensures
        error == failure(reply@),
{
    match reply {
        Reply::Failed(error) => *error,
        _ => Error::Other,
    }
}

/// What an access that only writes results in.
pub open spec fn completion(reply: Reply<Seq<u8>>) -> Result<(), Error> {
    match reply {
        Reply::Done => Ok(()),
        _ => Err(failure(reply)),
    }
}

/// What an access that only writes results in.
pub fn completion_of(reply: &Reply<Vec<u8>>) -> (result: Result<(), Error>)
    ensures
        result == completion(reply@),
{
    match reply {
        Reply::Done => Ok(()),
        _ => Err(failure_of(reply)),
    }
}

/// What a register read results in.
pub open spec fn word(reply: Reply<Seq<u8>>) -> Result<u32, Error> {
    match reply {
        Reply::Word(value) => Ok(value),
        _ => Err(failure(reply)),
    }
}

/// What a register read results in.
pub fn word_from(reply: &Reply<Vec<u8>>) -> (result: Result<u32, Error>)
    ensures
        result == word(reply@),
{
    match reply {
        Reply::Word(value) => Ok(*value),
        _ => Err(failure_of(reply)),
    }
}

impl Access<Vec<u8>> {
    /// A copy of the access.
    pub fn copy(&self) -> (copy: Access<Vec<u8>>)
        ensures
            copy@ == self@,
    {
        match self {
            Access::ReadSfr(address) => Access::ReadSfr(*address),
            Access::ReadSfrCrc(address) => Access::ReadSfrCrc(*address),
            Access::WriteSfr(address, value) => Access::WriteSfr(*address, *value),
            Access::WriteSfrByte(address, offset, value) => Access::WriteSfrByte(
                *address,
                *offset,
                *value,
            ),
            Access::ReadRam(address, length) => Access::ReadRam(*address, *length),
            Access::WriteRam(address, data) => {
                let copy = copy_range(data.as_slice(), 0, data.len());
                assert(copy@ =~= data@);
                Access::WriteRam(*address, copy)
            },
            Access::Reset => Access::Reset,
        }
    }
}

/// A single access that only writes.
#[derive(Debug)]
pub struct Single {
    pub access: Access<Vec<u8>>,
}

impl Operation for Single {
    type Output = Result<(), Error>;

    fn action(&self) -> (action: Action<Vec<u8>>)
        ensures
            action@ == Action::Access(self.access@),
    {
        Action::Access(self.access.copy())
    }

    fn resume(self, reply: Reply<Vec<u8>>) -> (next: Progress<Self, Result<(), Error>>)
        ensures
            next == Progress::<Self, Result<(), Error>>::Finished(completion(reply@)),
    {
        Progress::Finished(completion_of(&reply))
    }
}

/// A read of a range of RAM.
#[derive(Clone, Copy, Debug)]
pub struct RamRead {
    pub address: u16,
    pub length: usize,
}

impl Operation for RamRead {
    type Output = Result<Vec<u8>, Error>;

    fn action(&self) -> (action: Action<Vec<u8>>)
        ensures
            action@ == Action::Access(Access::<Seq<u8>>::ReadRam(self.address, self.length)),
    {
        Action::Access(Access::ReadRam(self.address, self.length))
    }

    fn resume(self, reply: Reply<Vec<u8>>) -> (next: Progress<Self, Result<Vec<u8>, Error>>)
        ensures
            match reply@ {
                Reply::Bytes(data) => next matches Progress::Finished(Ok(read)) && read@ == data,
                _ => next == Progress::<Self, Result<Vec<u8>, Error>>::Finished(
                    Err(failure(reply@)),
                ),
            },
    {
        match reply {
            Reply::Bytes(data) => Progress::Finished(Ok(data)),
            _ => Progress::Finished(Err(failure_of(&reply))),
        }
    }
}

/// A read of a register.
#[derive(Debug)]
pub struct RegisterRead<R> {
    /// Which register is read.
    pub address: SFRAddress,
    /// Whether the read is CRC-protected regardless of the CRC protection setting.
    pub checked: bool,
    /// What the register's contents are seen as.
    pub marker: PhantomData<R>,
}

/// The access that reads a register.
pub open spec fn register_access(address: SFRAddress, checked: bool) -> Action<Seq<u8>> {
    if checked {
        Action::Access(Access::ReadSfrCrc(address))
    } else {
        Action::Access(Access::ReadSfr(address))
    }
}

impl<R: RegisterValue> Operation for RegisterRead<R> {
    type Output = Result<R, Error>;

    fn action(&self) -> (action: Action<Vec<u8>>)
        ensures
            action@ == register_access(self.address, self.checked),
    {
        if self.checked {
            Action::Access(Access::ReadSfrCrc(self.address))
        } else {
            Action::Access(Access::ReadSfr(self.address))
        }
    }

    fn resume(self, reply: Reply<Vec<u8>>) -> (next: Progress<Self, Result<R, Error>>)
        ensures
            match word(reply@) {
                Ok(raw) => next matches Progress::Finished(Ok(register)) && register.bits() == raw,
                Err(error) => next == Progress::<Self, Result<R, Error>>::Finished(Err(error)),
            },
    {
        match word_from(&reply) {
            Ok(raw) => Progress::Finished(Ok(R::from_bits(raw))),
            Err(error) => Progress::Finished(Err(error)),
        }
    }
}

/// A question that one status flag answers.
#[derive(Clone, Copy, Debug, PartialEq, Eq, Structural)]
pub enum FlagQuery {
    /// Whether the transmit queue is empty.
    TxQueueEmpty,
    /// Whether the transmit queue is full.
    TxQueueFull,
    /// Whether a transmit FIFO is empty.
    TxFifoEmpty(FifoNumber),
    /// Whether a transmit FIFO is full.
    TxFifoFull(FifoNumber),
    /// Whether the transmit event FIFO holds an event.
    TxEventPending,
}

impl FlagQuery {
    /// The status register that holds the flag.
    pub open spec fn address(self) -> SFRAddress {
        match self {
            FlagQuery::TxQueueEmpty | FlagQuery::TxQueueFull => SFRAddress::C1TXQSTA,
            FlagQuery::TxFifoEmpty(fifo) | FlagQuery::TxFifoFull(fifo) => SFRAddress::C1FIFOSTA(
                fifo,
            ),
            FlagQuery::TxEventPending => SFRAddress::C1TEFSTA,
        }
    }

    /// The answer that the status register gives.
    pub open spec fn answer(self, raw: u32) -> bool {
        match self {
            FlagQuery::TxQueueEmpty => bit(raw, TXQSTA_TXQEIF),
            FlagQuery::TxQueueFull => !bit(raw, TXQSTA_TXQNIF),
            FlagQuery::TxFifoEmpty(_) => bit(raw, FIFOSTA_TFERFFIF),
            FlagQuery::TxFifoFull(_) => !bit(raw, FIFOSTA_TFNRFNIF),
            FlagQuery::TxEventPending => bit(raw, TEFSTA_TEFNEIF),
        }
    }

    /// What the query results in.
    pub open spec fn result(self, reply: Reply<Seq<u8>>) -> Result<bool, Error> {
        match word(reply) {
            Ok(raw) => Ok(self.answer(raw)),
            Err(error) => Err(error),
        }
    }
}

impl Operation for FlagQuery {
    type Output = Result<bool, Error>;

    fn action(&self) -> (action: Action<Vec<u8>>)
        ensures
            action@ == register_access(self.address(), false),
    {
        Action::Access(
            Access::ReadSfr(
                match *self {
                    FlagQuery::TxQueueEmpty
                    | FlagQuery::TxQueueFull => TxQueueStatusRegister::get_address(),
                    FlagQuery::TxFifoEmpty(fifo)
                    | FlagQuery::TxFifoFull(fifo) => FifoStatusRegister::get_address_for(fifo),
                    FlagQuery::TxEventPending => TxEventFifoStatusRegister::get_address(),
                },
            ),
        )
    }

    fn resume(self, reply: Reply<Vec<u8>>) -> (next: Progress<Self, Result<bool, Error>>)
        ensures
            next == Progress::<Self, Result<bool, Error>>::Finished(self.result(reply@)),
    {
        match word_from(&reply) {
            Ok(raw) => Progress::Finished(
                Ok(
                    match self {
                        FlagQuery::TxQueueEmpty => TxQueueStatusRegister(raw).txqeif(),
                        FlagQuery::TxQueueFull => !TxQueueStatusRegister(raw).txqnif(),
                        FlagQuery::TxFifoEmpty(_) => FifoStatusRegister(raw).tferffif(),
                        FlagQuery::TxFifoFull(_) => !FifoStatusRegister(raw).tfnrfnif(),
                        FlagQuery::TxEventPending => TxEventFifoStatusRegister(raw).tefneif(),
                    },
                ),
            ),
            Err(error) => Progress::Finished(Err(error)),
        }
    }
}

/// The question which mode the controller is in.
#[derive(Clone, Copy, Debug, PartialEq, Eq, Structural)]
pub struct ModeQuery;

impl Operation for ModeQuery {
    type Output = Result<OperationMode, Error>;

    fn action(&self) -> (action: Action<Vec<u8>>)
        ensures
            action@ == register_access(SFRAddress::C1CON, false),
    {
        Action::Access(Access::ReadSfr(CanControlRegister::get_address()))
    }

    fn resume(self, reply: Reply<Vec<u8>>) -> (next: Progress<Self, Result<OperationMode, Error>>)
        ensures
            match word(reply@) {
                Ok(raw) => next matches Progress::Finished(Ok(mode)) && mode.code() == field(
                    raw,
                    CON_OPMOD,
                    3,
                ),
                Err(error) => next == Progress::<Self, Result<OperationMode, Error>>::Finished(
                    Err(error),
                ),
            },
    {
        match word_from(&reply) {
            Ok(raw) => Progress::Finished(Ok(CanControlRegister(raw).opmode())),
            Err(error) => Progress::Finished(Err(error)),
        }
    }
}

/// The question for the value of the time base counter.
#[derive(Clone, Copy, Debug, PartialEq, Eq, Structural)]
pub struct CounterQuery;

impl Operation for CounterQuery {
    type Output = Result<u32, Error>;

    fn action(&self) -> (action: Action<Vec<u8>>)
        ensures
            action@ == register_access(SFRAddress::C1TBC, true),
    {
        // Errata 1 in DS80000984A recommends to use READ_CRC for this register
        Action::Access(Access::ReadSfrCrc(TimeBaseCounterRegister::get_address()))
    }

    fn resume(self, reply: Reply<Vec<u8>>) -> (next: Progress<Self, Result<u32, Error>>)
        ensures
            next == Progress::<Self, Result<u32, Error>>::Finished(word(reply@)),
    {
        match word_from(&reply) {
            Ok(raw) => Progress::Finished(Ok(TimeBaseCounterRegister(raw).tbc())),
            Err(error) => Progress::Finished(Err(error)),
        }
    }
}

/// The question whether a FIFO's transmission attempts are exhausted, which clears the flag that
/// says so.
#[derive(Clone, Copy, Debug, PartialEq, Eq, Structural)]
pub enum AttemptsQuery {
    /// Reads the status of the FIFO.
    Read(FifoNumber),
    /// Writes the status back with the flag reset, having read the given status.
    Clear(FifoNumber, u32),
}

impl AttemptsQuery {
    /// What to do next.
    pub open spec fn next_action(self) -> Action<Seq<u8>> {
        match self {
            AttemptsQuery::Read(fifo) => register_access(SFRAddress::C1FIFOSTA(fifo), false),
            AttemptsQuery::Clear(fifo, raw) => Action::Access(
                Access::WriteSfr(
                    SFRAddress::C1FIFOSTA(fifo),
                    with_bit(raw | FifoStatusRegister::clearable(), FIFOSTA_TXATIF, false),
                ),
            ),
        }
    }

    /// The query after a reply.
    pub open spec fn after(self, reply: Reply<Seq<u8>>) -> Progress<Self, Result<bool, Error>> {
        match self {
            AttemptsQuery::Read(fifo) => match word(reply) {
                Ok(raw) => Progress::Running(AttemptsQuery::Clear(fifo, raw)),
                Err(error) => Progress::Finished(Err(error)),
            },
            AttemptsQuery::Clear(_, raw) => match completion(reply) {
                Ok(_) => Progress::Finished(Ok(bit(raw, FIFOSTA_TXATIF))),
                Err(error) => Progress::Finished(Err(error)),
            },
        }
    }
}

impl Operation for AttemptsQuery {
    type Output = Result<bool, Error>;

    fn action(&self) -> (action: Action<Vec<u8>>)
        ensures
            action@ == self.next_action(),
    {
        match *self {
            AttemptsQuery::Read(fifo) => Action::Access(
                Access::ReadSfr(FifoStatusRegister::get_address_for(fifo)),
            ),
            AttemptsQuery::Clear(fifo, raw) => {
                let mut status = FifoStatusRegister(raw | FifoStatusRegister::clearable_flags());
                status.clear_txatif();
                Action::Access(
                    Access::WriteSfr(FifoStatusRegister::get_address_for(fifo), status.into_bits()),
                )
            },
        }
    }

    fn resume(self, reply: Reply<Vec<u8>>) -> (next: Progress<Self, Result<bool, Error>>)
        ensures
            next == self.after(reply@),
    {
        match self {
            AttemptsQuery::Read(fifo) => match word_from(&reply) {
                Ok(raw) => Progress::Running(AttemptsQuery::Clear(fifo, raw)),
                Err(error) => Progress::Finished(Err(error)),
            },
            AttemptsQuery::Clear(_, raw) => match completion_of(&reply) {
                Ok(_) => Progress::Finished(Ok(FifoStatusRegister(raw).txatif())),
                Err(error) => Progress::Finished(Err(error)),
            },
        }
    }
}

/// The query for exhausted transmission attempts clears that flag of the FIFO and no other.
pub proof fn lemma_attempts_query_clears(fifo: FifoNumber, raw: u32)
    ensures
        AttemptsQuery::Clear(fifo, raw).next_action() == Action::<Seq<u8>>::Access(
            Access::WriteSfr(
                SFRAddress::C1FIFOSTA(fifo),
                clearing_word(raw, FifoStatusRegister::clearable(), 0x10),
            ),
        ),
{
    assert(with_bit(raw | 0x18, FIFOSTA_TXATIF, false) == (raw | 0x18) & !0x10u32) by (bit_vector);
}

impl<SPI> MCP2518FD<SPI> {
    /// Reads a register.
    pub fn read_register<R: Register>(&self) -> (read: RegisterRead<R>)
        ensures
            read.address == R::address(),
            !read.checked,
    {
        RegisterRead { address: R::get_address(), checked: false, marker: PhantomData }
    }

    /// Reads a register with `READ_CRC` regardless of the CRC protection setting, retrying on a
    /// CRC mismatch.
    pub fn read_register_crc<R: Register>(&self) -> (read: RegisterRead<R>)
        ensures
            read.address == R::address(),
            read.checked,
    {
        RegisterRead { address: R::get_address(), checked: true, marker: PhantomData }
    }

    /// Reads a repeated register.
    pub fn read_repeated_register<R: RepeatedRegister>(&self, index: R::Index) -> (read:
        RegisterRead<R>)
        ensures
            read.address == R::address_for(index),
            !read.checked,
    {
        RegisterRead { address: R::get_address_for(index), checked: false, marker: PhantomData }
    }

    /// Writes a register.
    pub fn write_register<R: Register>(&self, value: R) -> (write: Single)
        ensures
            write.access@ == Access::<Seq<u8>>::WriteSfr(R::address(), value.bits()),
    {
        Single { access: Access::WriteSfr(R::get_address(), value.into_bits()) }
    }

    /// Writes a repeated register.
    pub fn write_repeated_register<R: RepeatedRegister>(&self, index: R::Index, value: R) -> (write:
        Single)
        ensures
            write.access@ == Access::<Seq<u8>>::WriteSfr(R::address_for(index), value.bits()),
    {
        Single { access: Access::WriteSfr(R::get_address_for(index), value.into_bits()) }
    }

    /// Reads a contiguous range from RAM.
    pub fn read_ram(&self, address: u16, length: usize) -> (read: RamRead)
        ensures
            read == (RamRead { address, length }),
    {
        RamRead { address, length }
    }

    /// Writes to a contiguous range in RAM.
    pub fn write_ram(&self, address: u16, data: &[u8]) -> (write: Single)
        ensures
            write.access@ == Access::WriteRam(address, data@),
    {
        let copy = copy_range(data, 0, data.len());
        assert(copy@ =~= data@);
        Single { access: Access::WriteRam(address, copy) }
    }

    /// Fetches the mode that the controller is in.
    pub fn get_op_mode(&self) -> (query: ModeQuery)
        ensures
            query == ModeQuery,
    {
        ModeQuery
    }

    /// Fetches the status of the TXQ to determine whether it is empty.
    pub fn tx_queue_is_empty(&self) -> (query: FlagQuery)
        ensures
            query == FlagQuery::TxQueueEmpty,
    {
        FlagQuery::TxQueueEmpty
    }

    /// Fetches the status of the TXQ to determine whether it is full.
    pub fn tx_queue_is_full(&self) -> (query: FlagQuery)
        ensures
            query == FlagQuery::TxQueueFull,
    {
        FlagQuery::TxQueueFull
    }

    /// Fetches the status of the TX FIFO to determine whether it is empty.
    pub fn tx_fifo_is_empty(&self, fifo_number: FifoNumber) -> (query: FlagQuery)
        ensures
            query == FlagQuery::TxFifoEmpty(fifo_number),
    {
        FlagQuery::TxFifoEmpty(fifo_number)
    }

    /// Fetches the status of the TX FIFO to determine whether it is full.
    pub fn tx_fifo_is_full(&self, fifo_number: FifoNumber) -> (query: FlagQuery)
        ensures
            query == FlagQuery::TxFifoFull(fifo_number),
    {
        FlagQuery::TxFifoFull(fifo_number)
    }

    /// Checks to see if there are any messages in the TEF.
    pub fn tx_event_fifo_has_next(&self) -> (query: FlagQuery)
        ensures
            query == FlagQuery::TxEventPending,
    {
        FlagQuery::TxEventPending
    }

    /// Gets the value of TXAT for this FIFO and clears it.
    pub fn tx_fifo_transmission_attempts_exhausted(&self, fifo_number: FifoNumber) -> (query:
        AttemptsQuery)
        ensures
            query == AttemptsQuery::Read(fifo_number),
    {
        AttemptsQuery::Read(fifo_number)
    }

    /// Fetches the codes of the pending interrupts of highest priority.
    pub fn get_highest_interrupt_codes(&self) -> (read: RegisterRead<InterruptCodeRegister>)
        ensures
            read.address == SFRAddress::C1VEC,
            !read.checked,
    {
        self.read_register::<InterruptCodeRegister>()
    }

    /// Fetches the interrupt flags.
    pub fn get_top_level_interrupt_statuses(&self) -> (read: RegisterRead<InterruptRegister>)
        ensures
            read.address == SFRAddress::C1INT,
            read.checked,
    {
        self.read_register_crc::<InterruptRegister>()
    }

    /// Fetches which receive FIFOs have a pending interrupt.
    pub fn get_rx_interrupt_statuses(&self) -> (read: RegisterRead<RxInterruptStatusRegister>)
        ensures
            read.address == SFRAddress::C1RXIF,
            !read.checked,
    {
        self.read_register::<RxInterruptStatusRegister>()
    }

    /// Fetches which receive FIFOs overflowed.
    pub fn get_rx_overflow_interrupt_statuses(&self) -> (read: RegisterRead<
        RxOverflowInterruptStatusRegister,
    >)
        ensures
            read.address == SFRAddress::C1RXOVIF,
            !read.checked,
    {
        self.read_register::<RxOverflowInterruptStatusRegister>()
    }

    /// Fetches which transmit FIFOs have a pending interrupt.
    pub fn get_tx_interrupt_statuses(&self) -> (read: RegisterRead<TxInterruptStatusRegister>)
        ensures
            read.address == SFRAddress::C1TXIF,
            !read.checked,
    {
        self.read_register::<TxInterruptStatusRegister>()
    }

    /// Fetches which transmit FIFOs have exhausted their attempts.
    pub fn get_tx_attempt_interrupt_statuses(&self) -> (read: RegisterRead<
        TxAttemptInterruptStatusRegister,
    >)
        ensures
            read.address == SFRAddress::C1TXATIF,
            !read.checked,
    {
        self.read_register::<TxAttemptInterruptStatusRegister>()
    }

    /// Fetches the value of the time base counter.
    pub fn get_time_base_counter(&self) -> (query: CounterQuery)
        ensures
            query == CounterQuery,
    {
        CounterQuery
    }
}

/// A register is read with a plain read, or with one that carries a checksum whatever the CRC
/// protection setting.
pub proof fn lemma_register_access(address: SFRAddress)
    ensures
        register_access(address, false) == Action::Access(Access::<Seq<u8>>::ReadSfr(address)),
        register_access(address, true) == Action::Access(Access::<Seq<u8>>::ReadSfrCrc(address)),
{
}

} // verus!
