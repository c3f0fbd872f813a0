//! Changes to registers, one after the other.

use vstd::prelude::*;

use crate::bits::{bytes_of, word_bytes};
use crate::memory::chip::IoControlRegister;
use crate::memory::controller::fifo::FifoNumber;
use crate::memory::controller::filter::FilterNumber;
use crate::memory::{RegisterValue, SFRAddress};
use crate::settings::{FifoConfiguration, FilterConfiguration, IoConfiguration};
use crate::spi::edit::{io_control, with_io, Edit};
use crate::spi::operation::{
    completion, completion_of, register_access, word, word_from, Action, Operation,
};
use crate::spi::transfer::{Access, Progress, Reply};
use crate::spi::{Error, MCP2518FD};

verus! {

/// A change to a register that is under way.
#[derive(Clone, Copy, Debug)]
pub enum RegisterTask {
    /// Reads a register to change it.
    Read(Edit),
    /// Writes a whole register.
    Write(SFRAddress, u32),
    /// Reads IOCON to change it.
    ReadIo(IoConfiguration),
    /// Writes byte 0 of IOCON, of the given value.
    WriteIo0(u32),
    /// Writes byte 1 of IOCON, of the given value.
    WriteIo1(u32),
    /// Writes byte 3 of IOCON, of the given value.
    WriteIo3(u32),
}

impl RegisterTask {
    /// Identifiers that are to be written are valid.
    pub open spec fn is_valid(self) -> bool {
        self matches RegisterTask::Read(edit) ==> edit.is_valid()
    }

    /// What to do next.
    pub open spec fn next_action(self) -> Action<Seq<u8>> {
        match self {
            RegisterTask::Read(edit) => register_access(edit.address(), false),
            RegisterTask::Write(address, value) => Action::Access(Access::WriteSfr(address, value)),
            RegisterTask::ReadIo(_) => register_access(SFRAddress::IOCON, false),
            RegisterTask::WriteIo0(value) => Action::Access(
                Access::WriteSfrByte(SFRAddress::IOCON, 0, bytes_of(value)[0]),
            ),
            RegisterTask::WriteIo1(value) => Action::Access(
                Access::WriteSfrByte(SFRAddress::IOCON, 1, bytes_of(value)[1]),
            ),
            RegisterTask::WriteIo3(value) => Action::Access(
                Access::WriteSfrByte(SFRAddress::IOCON, 3, bytes_of(value)[3]),
            ),
        }
    }

    /// What comes after the current action if it succeeds with the word `raw`; nothing, if the
    /// task is complete.
    pub open spec fn successor(self, raw: u32) -> Option<RegisterTask> {
        match self {
            RegisterTask::Read(edit) => Some(
                RegisterTask::Write(edit.address(), edit.applied(raw)),
            ),
            RegisterTask::Write(_, _) => None,
            RegisterTask::ReadIo(io) => Some(RegisterTask::WriteIo0(with_io(raw, io))),
            RegisterTask::WriteIo0(value) => Some(RegisterTask::WriteIo1(value)),
            RegisterTask::WriteIo1(value) => Some(RegisterTask::WriteIo3(value)),
            RegisterTask::WriteIo3(_) => None,
        }
    }

    /// Whether the current action reads a register.
    pub open spec fn is_read(self) -> bool {
        self is Read || self is ReadIo
    }

    /// The task after a reply: it goes on if the action succeeded, and ends at the first one that
    /// failed.
    pub open spec fn after(self, reply: Reply<Seq<u8>>) -> Progress<
        RegisterTask,
        Result<(), Error>,
    > {
        let outcome: Result<u32, Error> = if self.is_read() {
            word(reply)
        } else {
            match completion(reply) {
                Ok(_) => Ok(0u32),
                Err(error) => Err(error),
            }
        };
        match outcome {
            Err(error) => Progress::Finished(Err(error)),
            Ok(raw) => match self.successor(raw) {
                Some(next) => Progress::Running(next),
                None => Progress::Finished(Ok(())),
            },
        }
    }

    /// What to do next.
    pub fn current_action(&self) -> (action: Action<Vec<u8>>)
        ensures
            action@ == self.next_action(),
    {
        Action::Access(
            match *self {
                RegisterTask::Read(edit) => Access::ReadSfr(edit.register()),
                RegisterTask::Write(address, value) => Access::WriteSfr(address, value),
                RegisterTask::ReadIo(_) => Access::ReadSfr(SFRAddress::IOCON),
                RegisterTask::WriteIo0(value) => io_byte(value, 0),
                RegisterTask::WriteIo1(value) => io_byte(value, 1),
                RegisterTask::WriteIo3(value) => io_byte(value, 3),
            },
        )
    }

    /// Goes on after a reply.
    pub fn step(self, reply: &Reply<Vec<u8>>) -> (next: Progress<RegisterTask, Result<(), Error>>)
        requires
            self.is_valid(),
        ensures
            next == self.after(reply@),
            next matches Progress::Running(task) ==> task.is_valid(),
    {
        match self {
            RegisterTask::Read(edit) => match word_from(reply) {
                Ok(raw) => Progress::Running(RegisterTask::Write(edit.register(), edit.apply(raw))),
                Err(error) => Progress::Finished(Err(error)),
            },
            RegisterTask::ReadIo(io) => match word_from(reply) {
                Ok(raw) => Progress::Running(RegisterTask::WriteIo0(io_control(raw, io))),
                Err(error) => Progress::Finished(Err(error)),
            },
            RegisterTask::WriteIo0(value) => match completion_of(reply) {
                Ok(_) => Progress::Running(RegisterTask::WriteIo1(value)),
                Err(error) => Progress::Finished(Err(error)),
            },
            RegisterTask::WriteIo1(value) => match completion_of(reply) {
                Ok(_) => Progress::Running(RegisterTask::WriteIo3(value)),
                Err(error) => Progress::Finished(Err(error)),
            },
            RegisterTask::Write(_, _) | RegisterTask::WriteIo3(_) => Progress::Finished(
                completion_of(reply),
            ),
        }
    }
}

/// The access that writes one byte of IOCON.
fn io_byte(value: u32, offset: u8) -> (access: Access<Vec<u8>>)
    requires
        offset < 4,
    ensures
        access@ == Access::<Seq<u8>>::WriteSfrByte(
            SFRAddress::IOCON,
            offset,
            bytes_of(value)[offset as int],
        ),
{
    let bytes = word_bytes(value);
    Access::WriteSfrByte(SFRAddress::IOCON, offset, bytes[offset as usize])
}

/// A sequence of tasks: the one under way, and those to come.
pub ghost struct RegisterPlanView {
    pub task: RegisterTask,
    pub rest: Seq<RegisterTask>,
}

impl RegisterPlanView {
    /// The plan with the given tasks, of which there is at least one.
    pub open spec fn of(tasks: Seq<RegisterTask>) -> RegisterPlanView {
        RegisterPlanView { task: tasks[0], rest: tasks.skip(1) }
    }

    /// The plan after a reply: a task that is complete makes way for the next one, and one that
    /// fails ends the plan.
    pub open spec fn after(self, reply: Reply<Seq<u8>>) -> Progress<
        RegisterPlanView,
        Result<(), Error>,
    > {
        match self.task.after(reply) {
            Progress::Running(task) => Progress::Running(RegisterPlanView { task, ..self }),
            Progress::Finished(Err(error)) => Progress::Finished(Err(error)),
            Progress::Finished(Ok(_)) => if self.rest.len() == 0 {
                Progress::Finished(Ok(()))
            } else {
                Progress::Running(RegisterPlanView::of(self.rest))
            },
        }
    }
}

/// A sequence of tasks that is under way.
#[derive(Debug)]
pub struct RegisterPlan {
    tasks: Vec<RegisterTask>,
    next: usize,
    task: RegisterTask,
}

impl View for RegisterPlan {
    type V = RegisterPlanView;

    closed spec fn view(&self) -> RegisterPlanView {
        RegisterPlanView { task: self.task, rest: self.tasks@.skip(self.next as int) }
    }
}

impl RegisterPlan {
    #[verifier::type_invariant]
    spec fn is_possible(self) -> bool {
        &&& self.next <= self.tasks@.len()
        &&& self.task.is_valid()
        &&& forall|i: int| 0 <= i < self.tasks@.len() ==> (#[trigger] self.tasks@[i]).is_valid()
    }

    /// The plan with the given tasks.
    pub fn new(tasks: Vec<RegisterTask>) -> (plan: RegisterPlan)
        requires
            tasks@.len() > 0,
            forall|i: int| 0 <= i < tasks@.len() ==> (#[trigger] tasks@[i]).is_valid(),
        ensures
            plan@ == RegisterPlanView::of(tasks@),
    {
        let task = tasks[0];
        RegisterPlan { tasks, next: 1, task }
    }
}

impl Operation for RegisterPlan {
    type Output = Result<(), Error>;

    fn action(&self) -> (action: Action<Vec<u8>>)
        ensures
            action@ == self@.task.next_action(),
    {
        self.task.current_action()
    }

    fn resume(self, reply: Reply<Vec<u8>>) -> (next: Progress<Self, Result<(), Error>>)
        ensures
            match next {
                Progress::Running(plan) => self@.after(reply@) == Progress::<
                    RegisterPlanView,
                    Result<(), Error>,
                >::Running(plan@),
                Progress::Finished(result) => self@.after(reply@) == Progress::<
                    RegisterPlanView,
                    Result<(), Error>,
                >::Finished(result),
            },
    {
        proof {
            use_type_invariant(&self);
        }
        match self.task.step(&reply) {
            Progress::Running(task) => Progress::Running(
                RegisterPlan { tasks: self.tasks, next: self.next, task },
            ),
            Progress::Finished(Err(error)) => Progress::Finished(Err(error)),
            Progress::Finished(Ok(_)) => if self.next == self.tasks.len() {
                Progress::Finished(Ok(()))
            } else {
                let task = self.tasks[self.next];
                assert(self.tasks@.skip(self.next as int).skip(1) =~= self.tasks@.skip(
                    self.next + 1,
                ));
                Progress::Running(RegisterPlan { tasks: self.tasks, next: self.next + 1, task })
            },
        }
    }
}

/// The tasks that configure a filter: it is disabled no matter what, since it cannot be changed
/// while it is enabled; with a configuration its object and mask are set, and it is enabled
/// again.
pub open spec fn filter_tasks(
    filter_number: FilterNumber,
    filter_config: Option<FilterConfiguration>,
) -> Seq<RegisterTask> {
    match filter_config {
        None => seq![RegisterTask::Read(Edit::DisableFilter(filter_number))],
        Some(config) => seq![
            RegisterTask::Read(Edit::DisableFilter(filter_number)),
            RegisterTask::Read(Edit::FilterObject(filter_number, config)),
            RegisterTask::Read(Edit::FilterMask(filter_number, config)),
            RegisterTask::Read(Edit::EnableFilter(filter_number, config)),
        ],
    }
}

impl<SPI> MCP2518FD<SPI> {
    /// Writes IOCON one byte at a time, skipping the GPIO pin status byte.
    ///
    /// The datasheet requires single-byte writes for IOCON (Table 3-1, Note 2). Per errata
    /// DS80000789E item 5, a write that covers byte 2 (bits 23:16, the read-only GPIO pin status)
    /// clears LAT0/LAT1, so that byte is never written.
    pub fn write_io_control(&self, iocon: IoControlRegister) -> (plan: RegisterPlan)
        ensures
            plan@ == RegisterPlanView::of(seq![RegisterTask::WriteIo0(iocon.bits())]),
    {
        let mut tasks: Vec<RegisterTask> = Vec::new();
        tasks.push(RegisterTask::WriteIo0(iocon.into_bits()));
        assert(tasks@ =~= seq![RegisterTask::WriteIo0(iocon.bits())]);
        RegisterPlan::new(tasks)
    }

    /// Configures a FIFO based on the settings provided. As per documentation, a single FIFO must
    /// be dedicated to RX or TX and all objects in that queue must have the same payload size.
    pub fn configure_fifo(&self, fifo_number: FifoNumber, fifo_config: FifoConfiguration) -> (plan:
        RegisterPlan)
        ensures
            plan@ == RegisterPlanView::of(
                seq![RegisterTask::Read(Edit::Fifo(fifo_number, fifo_config))],
            ),
    {
        let mut tasks: Vec<RegisterTask> = Vec::new();
        tasks.push(RegisterTask::Read(Edit::Fifo(fifo_number, fifo_config)));
        assert(tasks@ =~= seq![RegisterTask::Read(Edit::Fifo(fifo_number, fifo_config))]);
        RegisterPlan::new(tasks)
    }

    /// Configures one of the 32 acceptance filters. If the filter_config is None, the filter will
    /// be disabled instead.
    ///
    /// Filters can be configured to accept only standard frames, only extended frames, or both
    /// standard and extended frames. If either the filter_bits or mask_bits fields are set as
    /// `Id::Standard`, the corresponding EID bits will be set to 0.
    ///
    /// When receiving standard frames, the EID component of the filter can be used to match
    /// against (up to) the first 18 bits of the message's data segment. The number of bits used
    /// is configured by `CiCON.DNCNT`. See the family reference manual for a more detailed
    /// description of this mechanism.
    pub fn configure_filter(
        &self,
        filter_number: FilterNumber,
        filter_config: Option<FilterConfiguration>,
    ) -> (plan: RegisterPlan)
        requires
            filter_config matches Some(config) ==> config.is_valid(),
        ensures
            plan@ == RegisterPlanView::of(filter_tasks(filter_number, filter_config)),
    {
        let mut tasks: Vec<RegisterTask> = Vec::new();
        // We need to disable the filter no matter what to configure it
        tasks.push(RegisterTask::Read(Edit::DisableFilter(filter_number)));
        // If we are just disabling it, then we are done here
        if let Some(config) = filter_config {
            // Set filter object bits and filter mode
            tasks.push(RegisterTask::Read(Edit::FilterObject(filter_number, config)));
            // Set the mask bits and exclusion mode
            tasks.push(RegisterTask::Read(Edit::FilterMask(filter_number, config)));
            // Set the BP and reenable the filter
            tasks.push(RegisterTask::Read(Edit::EnableFilter(filter_number, config)));
        }
        assert(tasks@ =~= filter_tasks(filter_number, filter_config));
        RegisterPlan::new(tasks)
    }
}

} // verus!
