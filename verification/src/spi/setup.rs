//! Reset and configuration of the device.

use vstd::prelude::*;

use crate::bits::{bit, bytes_of, field, with_bit, with_field, word_bytes};
use crate::memory::chip::{OscillatorControlRegister, OSC_OSCRDY, OSC_PLLRDY};
use crate::memory::controller::configuration::{CanControlRegister, OperationMode, CON_OPMOD};
use crate::memory::{RegisterValue, SFRAddress, RAM_START};
use crate::settings::{
    BitTimeConfiguration, IoConfiguration, OscillatorConfiguration, Pll, Settings,
    TxEventFifoConfiguration, TxQueueConfiguration,
};
use crate::spi::edit::{Edit, InterruptSelection};
use crate::spi::operation::{
    completion, completion_of, failure, failure_of, register_access, word, word_from, Action,
    Operation,
};
use crate::spi::task::RegisterTask;
use crate::spi::transfer::{Access, Progress, Reply};
use crate::spi::{config_error, ConfigError, MCP2518FD};

verus! {

/// What OSC is set to before a reset, the power-on defaults: clock enabled, PLL off, SYSCLK
/// undivided, CLKO divided by 10.
pub const OSC_DEFAULT: u32 = 0x60;

/// Data that is written to RAM and read back, to see whether the connection works.
#[derive(Clone, Copy, Debug, PartialEq, Eq, Structural)]
pub enum Echo {
    /// One word.
    Word(u32),
    /// The words with a single bit set, from bit 0 to bit 31.
    WalkingBit,
}

/// The bytes of the words with a single bit set, from bit 0 to bit 31.
pub open spec fn walking_bit() -> Seq<u8> {
    Seq::new(128, |i: int| bytes_of(1u32 << ((i / 4) as u32))[i % 4])
}

impl Echo {
    /// The bytes that are written.
    pub open spec fn data(self) -> Seq<u8> {
        match self {
            Echo::Word(value) => bytes_of(value),
            Echo::WalkingBit => walking_bit(),
        }
    }

    /// Number of bytes that are written.
    pub open spec fn length(self) -> usize {
        match self {
            Echo::Word(_) => 4,
            Echo::WalkingBit => 128,
        }
    }

    /// The bytes that are written.
    pub fn bytes(&self) -> (data: Vec<u8>)
        ensures
            data@ == self.data(),
            data@.len() == self.length(),
    {
        match *self {
            Echo::Word(value) => word_bytes(value),
            Echo::WalkingBit => {
                let mut data: Vec<u8> = Vec::new();
                let mut i: u32 = 0;
                while i < 32
                    invariant
                        i <= 32,
                        data@ == walking_bit().take(4 * i),
                    decreases 32 - i,
                {
                    let mut bytes = word_bytes(1u32 << i);
                    data.append(&mut bytes);
                    i += 1;
                    assert(data@ =~= walking_bit().take(4 * i));
                }
                assert(data@ =~= walking_bit());
                data
            },
        }
    }
}

/// Whether two byte sequences are equal.
fn same_bytes(a: &Vec<u8>, b: &Vec<u8>) -> (same: bool)
    ensures
        same == (a@ == b@),
{
    if a.len() != b.len() {
        return false;
    }
    let mut i: usize = 0;
    while i < a.len()
        invariant
            i <= a@.len(),
            a@.len() == b@.len(),
            forall|j: int| 0 <= j < i ==> a@[j] == b@[j],
        decreases a@.len() - i,
    {
        if a[i] != b[i] {
            return false;
        }
        i += 1;
    }
    assert(a@ =~= b@);
    true
}

/// A state that the device is polled for.
#[derive(Clone, Copy, Debug, PartialEq, Eq, Structural)]
pub enum Awaited {
    /// The controller is in a mode.
    ///
    /// Leaving Normal mode waits for the bus to become idle, which can take a full frame (about
    /// 75 ms for a CAN FD frame at 10 kbit/s).
    Mode(OperationMode),
    /// The PLL has locked.
    Pll,
    /// The oscillator is ready and the controller is in Configuration mode.
    Reset,
}

impl Awaited {
    /// Pause between two polls, in microseconds.
    pub open spec fn interval(self) -> u32 {
        if self is Mode {
            200
        } else {
            500
        }
    }

    /// Most polls before giving up.
    pub open spec fn attempts(self) -> u32 {
        if self is Mode {
            500
        } else {
            60
        }
    }

    /// The error when the state is not reached.
    pub open spec fn timeout(self) -> ConfigError {
        match self {
            Awaited::Mode(_) => ConfigError::ChangeOpModeTimeout,
            Awaited::Pll => ConfigError::PLLNotReady,
            Awaited::Reset => ConfigError::ConfigurationModeTimeout,
        }
    }

    /// The register that is polled.
    pub open spec fn address(self) -> SFRAddress {
        if self is Mode {
            SFRAddress::C1CON
        } else {
            SFRAddress::OSC
        }
    }

    /// Whether the polled register shows the state; a reset is then still to be confirmed by the
    /// controller's mode.
    pub open spec fn is_shown_by(self, raw: u32) -> bool {
        match self {
            Awaited::Mode(mode) => field(raw, CON_OPMOD, 3) == mode.code(),
            Awaited::Pll => bit(raw, OSC_PLLRDY),
            Awaited::Reset => bit(raw, OSC_OSCRDY),
        }
    }

    /// The first poll.
    pub open spec fn start(self) -> Poll {
        Poll::Read((self.attempts() - 1) as u32)
    }

    /// Most polls before giving up.
    fn max_attempts(self) -> (attempts: u32)
        ensures
            attempts == self.attempts(),
            attempts > 0,
    {
        match self {
            Awaited::Mode(_) => 500,
            _ => 60,
        }
    }

    /// The first poll.
    pub fn begin(self) -> (poll: Poll)
        ensures
            poll == self.start(),
    {
        Poll::Read(self.max_attempts() - 1)
    }

    /// The error when the state is not reached.
    fn timeout_error(self) -> (error: ConfigError)
        ensures
            error == self.timeout(),
    {
        match self {
            Awaited::Mode(_) => ConfigError::ChangeOpModeTimeout,
            Awaited::Pll => ConfigError::PLLNotReady,
            Awaited::Reset => ConfigError::ConfigurationModeTimeout,
        }
    }

    /// Whether the polled register shows the state.
    fn shows(self, raw: u32) -> (shown: bool)
        ensures
            shown == self.is_shown_by(raw),
    {
        match self {
            Awaited::Mode(mode) => CanControlRegister(raw).opmode().to_code() == mode.to_code(),
            Awaited::Pll => OscillatorControlRegister(raw).pllrdy(),
            Awaited::Reset => OscillatorControlRegister(raw).oscrdy(),
        }
    }
}

/// A poll, with the number of attempts that are left after it.
#[derive(Clone, Copy, Debug, PartialEq, Eq, Structural)]
pub enum Poll {
    /// Reads the register.
    Read(u32),
    /// Reads the controller's mode to confirm a reset.
    Confirm(u32),
    /// Pauses before the next attempt.
    Pause(u32),
}

impl Poll {
    /// What to do next.
    pub open spec fn next_action(self, awaited: Awaited) -> Action<Seq<u8>> {
        match self {
            Poll::Read(_) => register_access(awaited.address(), false),
            Poll::Confirm(_) => register_access(SFRAddress::C1CON, false),
            Poll::Pause(_) => Action::Delay(awaited.interval()),
        }
    }

    /// The poll after an attempt that did not show the state.
    pub open spec fn missed(awaited: Awaited, left: u32) -> Progress<
        Poll,
        Result<(), ConfigError>,
    > {
        if left > 0 {
            Progress::Running(Poll::Pause(left))
        } else {
            Progress::Finished(Err(awaited.timeout()))
        }
    }

    /// The poll after a reply.
    pub open spec fn after(self, awaited: Awaited, reply: Reply<Seq<u8>>) -> Progress<
        Poll,
        Result<(), ConfigError>,
    > {
        match self {
            Poll::Read(left) => match word(reply) {
                Err(error) => Progress::Finished(Err(config_error(error))),
                Ok(raw) => if !awaited.is_shown_by(raw) {
                    Poll::missed(awaited, left)
                } else if awaited is Reset {
                    Progress::Running(Poll::Confirm(left))
                } else {
                    Progress::Finished(Ok(()))
                },
            },
            Poll::Confirm(left) => match word(reply) {
                Err(error) => Progress::Finished(Err(config_error(error))),
                Ok(raw) => if Awaited::Mode(OperationMode::Configuration).is_shown_by(raw) {
                    Progress::Finished(Ok(()))
                } else {
                    Poll::missed(awaited, left)
                },
            },
            Poll::Pause(left) => match completion(reply) {
                Err(error) => Progress::Finished(Err(config_error(error))),
                Ok(_) => Progress::Running(
                    Poll::Read(
                        if left > 0 {
                            (left - 1) as u32
                        } else {
                            0u32
                        },
                    ),
                ),
            },
        }
    }

    /// What to do next.
    fn current_action(self, awaited: Awaited) -> (action: Action<Vec<u8>>)
        ensures
            action@ == self.next_action(awaited),
    {
        match self {
            Poll::Read(_) => Action::Access(
                Access::ReadSfr(
                    match awaited {
                        Awaited::Mode(_) => SFRAddress::C1CON,
                        _ => SFRAddress::OSC,
                    },
                ),
            ),
            Poll::Confirm(_) => Action::Access(Access::ReadSfr(SFRAddress::C1CON)),
            Poll::Pause(_) => Action::Delay(
                match awaited {
                    Awaited::Mode(_) => 200,
                    _ => 500,
                },
            ),
        }
    }

    /// Goes on after an attempt that did not show the state.
    fn miss(awaited: Awaited, left: u32) -> (next: Progress<Poll, Result<(), ConfigError>>)
        ensures
            next == Poll::missed(awaited, left),
    {
        if left > 0 {
            Progress::Running(Poll::Pause(left))
        } else {
            Progress::Finished(Err(awaited.timeout_error()))
        }
    }

    /// Goes on after a reply.
    fn step(self, awaited: Awaited, reply: &Reply<Vec<u8>>) -> (next: Progress<
        Poll,
        Result<(), ConfigError>,
    >)
        ensures
            next == self.after(awaited, reply@),
    {
        match self {
            Poll::Read(left) => match word_from(reply) {
                Err(error) => Progress::Finished(Err(ConfigError::from(error))),
                Ok(raw) => if !awaited.shows(raw) {
                    Poll::miss(awaited, left)
                } else {
                    match awaited {
                        Awaited::Reset => Progress::Running(Poll::Confirm(left)),
                        _ => Progress::Finished(Ok(())),
                    }
                },
            },
            Poll::Confirm(left) => match word_from(reply) {
                Err(error) => Progress::Finished(Err(ConfigError::from(error))),
                Ok(raw) => if Awaited::Mode(OperationMode::Configuration).shows(raw) {
                    Progress::Finished(Ok(()))
                } else {
                    Poll::miss(awaited, left)
                },
            },
            Poll::Pause(left) => match completion_of(reply) {
                Err(error) => Progress::Finished(Err(ConfigError::from(error))),
                Ok(_) => Progress::Running(
                    Poll::Read(
                        if left > 0 {
                            left - 1
                        } else {
                            0
                        },
                    ),
                ),
            },
        }
    }
}

/// What becomes of a failed change of the operation mode.
#[derive(Clone, Copy, Debug, PartialEq, Eq, Structural)]
pub enum OnFailure {
    /// It is reported.
    Report,
    /// It is reported as a timeout of Configuration mode, whatever it was.
    ReportTimeout,
    /// It is ignored.
    Ignore,
}

impl OnFailure {
    /// What is made of the result.
    pub open spec fn applied(self, result: Result<(), ConfigError>) -> Result<(), ConfigError> {
        match result {
            Ok(_) => Ok(()),
            Err(error) => match self {
                OnFailure::Report => Err(error),
                OnFailure::ReportTimeout => Err(ConfigError::ConfigurationModeTimeout),
                OnFailure::Ignore => Ok(()),
            },
        }
    }

    /// What is made of the result.
    fn apply(self, result: Result<(), ConfigError>) -> (outcome: Result<(), ConfigError>)
        ensures
            outcome == self.applied(result),
    {
        match result {
            Ok(_) => Ok(()),
            Err(error) => match self {
                OnFailure::Report => Err(error),
                OnFailure::ReportTimeout => Err(ConfigError::ConfigurationModeTimeout),
                OnFailure::Ignore => Ok(()),
            },
        }
    }
}

/// A part of the setup that is under way.
#[derive(Clone, Copy, Debug)]
pub enum SetupTask {
    /// Changes a register.
    Change(RegisterTask),
    /// Requests an operation mode, and then waits for it.
    RequestMode(OperationMode, OnFailure, RegisterTask),
    /// Waits for an operation mode.
    AwaitMode(OperationMode, OnFailure, Poll),
    /// Waits for the PLL to lock.
    AwaitPll(Poll),
    /// Waits for the device to come out of a reset.
    AwaitReset(Poll),
    /// Writes to the first RAM location.
    WriteEcho(Echo),
    /// Reads back from the first RAM location.
    ReadEcho(Echo),
    /// Sends the RESET instruction.
    SendReset,
}

/// The progress of a part of the setup.
pub type SetupProgress = Progress<SetupTask, Result<(), ConfigError>>;

impl SetupTask {
    /// Changes the operating mode.
    pub open spec fn set_mode(mode: OperationMode, on_failure: OnFailure) -> SetupTask {
        SetupTask::RequestMode(mode, on_failure, RegisterTask::Read(Edit::RequestMode(mode)))
    }

    /// Changes a register.
    pub open spec fn edit(edit: Edit) -> SetupTask {
        SetupTask::Change(RegisterTask::Read(edit))
    }

    /// Identifiers that are to be written are valid.
    pub open spec fn is_valid(self) -> bool {
        match self {
            SetupTask::Change(task) => task.is_valid(),
            SetupTask::RequestMode(_, _, task) => task.is_valid(),
            _ => true,
        }
    }

    /// What to do next.
    pub open spec fn next_action(self) -> Action<Seq<u8>> {
        match self {
            SetupTask::Change(task) => task.next_action(),
            SetupTask::RequestMode(_, _, task) => task.next_action(),
            SetupTask::AwaitMode(mode, _, poll) => poll.next_action(Awaited::Mode(mode)),
            SetupTask::AwaitPll(poll) => poll.next_action(Awaited::Pll),
            SetupTask::AwaitReset(poll) => poll.next_action(Awaited::Reset),
            SetupTask::WriteEcho(echo) => Action::Access(
                Access::WriteRam(RAM_START, echo.data()),
            ),
            SetupTask::ReadEcho(echo) => Action::Access(
                Access::ReadRam(RAM_START, echo.length()),
            ),
            SetupTask::SendReset => Action::Access(Access::Reset),
        }
    }

    /// The task after a reply.
    pub open spec fn after(self, reply: Reply<Seq<u8>>) -> SetupProgress {
        match self {
            SetupTask::Change(task) => match task.after(reply) {
                Progress::Running(next) => Progress::Running(SetupTask::Change(next)),
                Progress::Finished(Ok(_)) => Progress::Finished(Ok(())),
                Progress::Finished(Err(error)) => Progress::Finished(Err(config_error(error))),
            },
            SetupTask::RequestMode(mode, on_failure, task) => match task.after(reply) {
                Progress::Running(next) => Progress::Running(
                    SetupTask::RequestMode(mode, on_failure, next),
                ),
                Progress::Finished(Ok(_)) => Progress::Running(
                    SetupTask::AwaitMode(mode, on_failure, Awaited::Mode(mode).start()),
                ),
                Progress::Finished(Err(error)) => Progress::Finished(
                    on_failure.applied(Err(config_error(error))),
                ),
            },
            SetupTask::AwaitMode(mode, on_failure, poll) => match poll.after(
                Awaited::Mode(mode),
                reply,
            ) {
                Progress::Running(next) => Progress::Running(
                    SetupTask::AwaitMode(mode, on_failure, next),
                ),
                Progress::Finished(result) => Progress::Finished(on_failure.applied(result)),
            },
            SetupTask::AwaitPll(poll) => match poll.after(Awaited::Pll, reply) {
                Progress::Running(next) => Progress::Running(SetupTask::AwaitPll(next)),
                Progress::Finished(result) => Progress::Finished(result),
            },
            SetupTask::AwaitReset(poll) => match poll.after(Awaited::Reset, reply) {
                Progress::Running(next) => Progress::Running(SetupTask::AwaitReset(next)),
                Progress::Finished(result) => Progress::Finished(result),
            },
            SetupTask::WriteEcho(echo) => match completion(reply) {
                Ok(_) => Progress::Running(SetupTask::ReadEcho(echo)),
                Err(error) => Progress::Finished(Err(config_error(error))),
            },
            SetupTask::ReadEcho(echo) => match reply {
                Reply::Bytes(data) => if data == echo.data() {
                    Progress::Finished(Ok(()))
                } else {
                    Progress::Finished(Err(ConfigError::SPIFailedRAMEcho))
                },
                _ => Progress::Finished(Err(config_error(failure(reply)))),
            },
            SetupTask::SendReset => match completion(reply) {
                Ok(_) => Progress::Finished(Ok(())),
                Err(error) => Progress::Finished(Err(config_error(error))),
            },
        }
    }

    /// What to do next.
    pub fn current_action(&self) -> (action: Action<Vec<u8>>)
        ensures
            action@ == self.next_action(),
    {
        match *self {
            SetupTask::Change(task) => task.current_action(),
            SetupTask::RequestMode(_, _, task) => task.current_action(),
            SetupTask::AwaitMode(mode, _, poll) => poll.current_action(Awaited::Mode(mode)),
            SetupTask::AwaitPll(poll) => poll.current_action(Awaited::Pll),
            SetupTask::AwaitReset(poll) => poll.current_action(Awaited::Reset),
            SetupTask::WriteEcho(echo) => Action::Access(
                Access::WriteRam(RAM_START, echo.bytes()),
            ),
            SetupTask::ReadEcho(echo) => Action::Access(
                Access::ReadRam(
                    RAM_START,
                    match echo {
                        Echo::Word(_) => 4,
                        Echo::WalkingBit => 128,
                    },
                ),
            ),
            SetupTask::SendReset => Action::Access(Access::Reset),
        }
    }

    /// Goes on after a reply.
    pub fn step(self, reply: &Reply<Vec<u8>>) -> (next: SetupProgress)
        requires
            self.is_valid(),
        ensures
            next == self.after(reply@),
            next matches Progress::Running(task) ==> task.is_valid(),
    {
        match self {
            SetupTask::Change(task) => match task.step(reply) {
                Progress::Running(next) => Progress::Running(SetupTask::Change(next)),
                Progress::Finished(Ok(_)) => Progress::Finished(Ok(())),
                Progress::Finished(Err(error)) => Progress::Finished(Err(ConfigError::from(error))),
            },
            SetupTask::RequestMode(mode, on_failure, task) => match task.step(reply) {
                Progress::Running(next) => Progress::Running(
                    SetupTask::RequestMode(mode, on_failure, next),
                ),
                Progress::Finished(Ok(_)) => Progress::Running(
                    SetupTask::AwaitMode(mode, on_failure, Awaited::Mode(mode).begin()),
                ),
                Progress::Finished(Err(error)) => Progress::Finished(
                    on_failure.apply(Err(ConfigError::from(error))),
                ),
            },
            SetupTask::AwaitMode(mode, on_failure, poll) => match poll.step(
                Awaited::Mode(mode),
                reply,
            ) {
                Progress::Running(next) => Progress::Running(
                    SetupTask::AwaitMode(mode, on_failure, next),
                ),
                Progress::Finished(result) => Progress::Finished(on_failure.apply(result)),
            },
            SetupTask::AwaitPll(poll) => match poll.step(Awaited::Pll, reply) {
                Progress::Running(next) => Progress::Running(SetupTask::AwaitPll(next)),
                Progress::Finished(result) => Progress::Finished(result),
            },
            SetupTask::AwaitReset(poll) => match poll.step(Awaited::Reset, reply) {
                Progress::Running(next) => Progress::Running(SetupTask::AwaitReset(next)),
                Progress::Finished(result) => Progress::Finished(result),
            },
            SetupTask::WriteEcho(echo) => match completion_of(reply) {
                Ok(_) => Progress::Running(SetupTask::ReadEcho(echo)),
                Err(error) => Progress::Finished(Err(ConfigError::from(error))),
            },
            SetupTask::ReadEcho(echo) => match reply {
                Reply::Bytes(data) => if same_bytes(data, &echo.bytes()) {
                    Progress::Finished(Ok(()))
                } else {
                    Progress::Finished(Err(ConfigError::SPIFailedRAMEcho))
                },
                _ => Progress::Finished(Err(ConfigError::from(failure_of(reply)))),
            },
            SetupTask::SendReset => match completion_of(reply) {
                Ok(_) => Progress::Finished(Ok(())),
                Err(error) => Progress::Finished(Err(ConfigError::from(error))),
            },
        }
    }
}

/// A sequence of tasks: the one under way, and those to come.
pub ghost struct SetupPlanView {
    pub task: SetupTask,
    pub rest: Seq<SetupTask>,
}

/// The progress of a sequence of tasks.
pub type SetupPlanProgressView = Progress<SetupPlanView, Result<(), ConfigError>>;

impl SetupPlanView {
    /// The plan with the given tasks, of which there is at least one.
    pub open spec fn of(tasks: Seq<SetupTask>) -> SetupPlanView {
        SetupPlanView { task: tasks[0], rest: tasks.skip(1) }
    }

    /// The plan after a reply: a task that is complete makes way for the next one, and one that
    /// fails ends the plan.
    pub open spec fn after(self, reply: Reply<Seq<u8>>) -> SetupPlanProgressView {
        match self.task.after(reply) {
            Progress::Running(task) => Progress::Running(SetupPlanView { task, ..self }),
            Progress::Finished(Err(error)) => Progress::Finished(Err(error)),
            Progress::Finished(Ok(_)) => if self.rest.len() == 0 {
                Progress::Finished(Ok(()))
            } else {
                Progress::Running(SetupPlanView::of(self.rest))
            },
        }
    }
}

/// A sequence of tasks that is under way.
#[derive(Debug)]
pub struct SetupPlan {
    tasks: Vec<SetupTask>,
    next: usize,
    task: SetupTask,
}

impl View for SetupPlan {
    type V = SetupPlanView;

    closed spec fn view(&self) -> SetupPlanView {
        SetupPlanView { task: self.task, rest: self.tasks@.skip(self.next as int) }
    }
}

impl SetupPlan {
    #[verifier::type_invariant]
    spec fn is_possible(self) -> bool {
        &&& self.next <= self.tasks@.len()
        &&& self.task.is_valid()
        &&& forall|i: int| 0 <= i < self.tasks@.len() ==> (#[trigger] self.tasks@[i]).is_valid()
    }

    /// The plan with the given tasks.
    pub fn new(tasks: Vec<SetupTask>) -> (plan: SetupPlan)
        requires
            tasks@.len() > 0,
            forall|i: int| 0 <= i < tasks@.len() ==> (#[trigger] tasks@[i]).is_valid(),
        ensures
            plan@ == SetupPlanView::of(tasks@),
    {
        let task = tasks[0];
        SetupPlan { tasks, next: 1, task }
    }
}

impl Operation for SetupPlan {
    type Output = Result<(), ConfigError>;

    fn action(&self) -> (action: Action<Vec<u8>>)
        ensures
            action@ == self@.task.next_action(),
    {
        self.task.current_action()
    }

    fn resume(self, reply: Reply<Vec<u8>>) -> (next: Progress<Self, Result<(), ConfigError>>)
        ensures
            match next {
                Progress::Running(plan) => self@.after(reply@) == SetupPlanProgressView::Running(
                    plan@,
                ),
                Progress::Finished(result) => self@.after(reply@)
                    == SetupPlanProgressView::Finished(result),
            },
    {
        proof {
            use_type_invariant(&self);
        }
        match self.task.step(&reply) {
            Progress::Running(task) => Progress::Running(
                SetupPlan { tasks: self.tasks, next: self.next, task },
            ),
            Progress::Finished(Err(error)) => Progress::Finished(Err(error)),
            Progress::Finished(Ok(_)) => if self.next == self.tasks.len() {
                Progress::Finished(Ok(()))
            } else {
                let task = self.tasks[self.next];
                assert(self.tasks@.skip(self.next as int).skip(1) =~= self.tasks@.skip(
                    self.next + 1,
                ));
                Progress::Running(SetupPlan { tasks: self.tasks, next: self.next + 1, task })
            },
        }
    }
}

/// Re-enables the oscillator, requests Configuration mode whether or not that works, resets the
/// device, and waits for it.
pub open spec fn reset_tasks() -> Seq<SetupTask> {
    seq![
        SetupTask::Change(RegisterTask::Write(SFRAddress::OSC, OSC_DEFAULT)),
        SetupTask::set_mode(OperationMode::Configuration, OnFailure::Ignore),
        SetupTask::SendReset,
        SetupTask::AwaitReset(Awaited::Reset.start()),
    ]
}

/// Writes and reads back each word with a single bit set, from bit 0 to bit 31.
pub open spec fn echo_tasks() -> Seq<SetupTask> {
    Seq::new(32, |i: int| SetupTask::WriteEcho(Echo::Word(1u32 << (i as u32))))
}

/// Sets up the system clock, and waits for the PLL if it is used.
pub open spec fn oscillator_tasks(oscillator: OscillatorConfiguration) -> Seq<SetupTask> {
    let change = seq![SetupTask::edit(Edit::Oscillator(oscillator))];
    match oscillator.pll {
        Pll::On => change.push(SetupTask::AwaitPll(Awaited::Pll.start())),
        Pll::Off => change,
    }
}

/// Sets up the I/O pins.
pub open spec fn io_tasks(io: IoConfiguration) -> Seq<SetupTask> {
    seq![SetupTask::Change(RegisterTask::ReadIo(io))]
}

/// Sets up the bit timing of both phases, and the delay compensation.
pub open spec fn bit_timing_tasks(timing: BitTimeConfiguration) -> Seq<SetupTask> {
    seq![
        SetupTask::edit(Edit::NominalBitTime(timing.nominal)),
        SetupTask::edit(Edit::DataBitTime(timing.data)),
        SetupTask::edit(Edit::DelayCompensation(timing.data)),
    ]
}

/// Enables or disables the transmit event FIFO, and sets it up if it is enabled.
pub open spec fn tx_event_fifo_tasks(config: Option<TxEventFifoConfiguration>) -> Seq<SetupTask> {
    match config {
        None => seq![SetupTask::edit(Edit::EnableTxEventFifo(false))],
        Some(config) => seq![
            SetupTask::edit(Edit::EnableTxEventFifo(true)),
            SetupTask::edit(Edit::TxEventFifo(config)),
        ],
    }
}

/// Enables or disables the transmit queue, and sets it up if it is enabled.
pub open spec fn tx_queue_tasks(config: Option<TxQueueConfiguration>) -> Seq<SetupTask> {
    match config {
        None => seq![SetupTask::edit(Edit::EnableTxQueue(false))],
        Some(config) => seq![
            SetupTask::edit(Edit::EnableTxQueue(true)),
            SetupTask::edit(Edit::TxQueue(config)),
        ],
    }
}

/// Sets up the time base counter if it is used.
pub open spec fn counter_tasks(settings: Settings) -> Seq<SetupTask> {
    match settings.time_base_counter {
        None => seq![],
        Some(counter) => seq![SetupTask::edit(Edit::TimeBaseCounter(counter.prescaler))],
    }
}

/// Sets how many data bits filters compare, if they compare any.
pub open spec fn data_bits_tasks(settings: Settings) -> Seq<SetupTask> {
    match settings.data_bits_to_match {
        None => seq![],
        Some(count) => if count == 0 {
            seq![]
        } else {
            seq![SetupTask::edit(Edit::DataBitsToMatch(count))]
        },
    }
}

/// The interrupts that the settings enable.
pub open spec fn selected_interrupts(settings: Settings) -> InterruptSelection {
    InterruptSelection {
        can_errors: settings.enable_can_error_interrupts,
        spi_errors: settings.enable_spi_error_interrupt,
        ecc_errors: settings.enable_ecc_error_interrupt,
        counter_overflow: settings.time_base_counter matches Some(counter)
            && counter.overflow_interrupt,
    }
}

/// Puts the device into Configuration mode, verifies that SPI communication works, and writes all
/// the configuration registers.
pub open spec fn configure_tasks(settings: Settings) -> Seq<SetupTask> {
    seq![SetupTask::set_mode(OperationMode::Configuration, OnFailure::ReportTimeout)]
        + echo_tasks() + oscillator_tasks(settings.oscillator) + io_tasks(settings.io_configuration)
        + bit_timing_tasks(settings.bit_time_configuration) + tx_event_fifo_tasks(
        settings.tx_event_fifo,
    ) + tx_queue_tasks(settings.tx_queue) + counter_tasks(settings) + data_bits_tasks(settings)
        + seq![
        SetupTask::edit(Edit::LimitRetransmissions),
        SetupTask::edit(Edit::Interrupts(selected_interrupts(settings))),
    ]
}

/// Every task in a sequence is valid.
pub open spec fn all_valid(tasks: Seq<SetupTask>) -> bool {
    forall|i: int| 0 <= i < tasks.len() ==> (#[trigger] tasks[i]).is_valid()
}

/// Adds a task to a list.
fn add_task(tasks: &mut Vec<SetupTask>, task: SetupTask)
    requires
        all_valid(old(tasks)@),
        task.is_valid(),
    ensures
        final(tasks)@ == old(tasks)@.push(task),
        all_valid(final(tasks)@),
{
    tasks.push(task);
}

/// Adds a change of the operation mode to a list.
fn add_mode(tasks: &mut Vec<SetupTask>, mode: OperationMode, on_failure: OnFailure)
    requires
        all_valid(old(tasks)@),
    ensures
        final(tasks)@ == old(tasks)@.push(SetupTask::set_mode(mode, on_failure)),
        all_valid(final(tasks)@),
{
    add_task(
        tasks,
        SetupTask::RequestMode(mode, on_failure, RegisterTask::Read(Edit::RequestMode(mode))),
    );
}

/// Adds a change of a register to a list.
fn add_edit(tasks: &mut Vec<SetupTask>, edit: Edit)
    requires
        all_valid(old(tasks)@),
        edit.is_valid(),
    ensures
        final(tasks)@ == old(tasks)@.push(SetupTask::edit(edit)),
        all_valid(final(tasks)@),
{
    add_task(tasks, SetupTask::Change(RegisterTask::Read(edit)));
}

/// Adds the test of the SPI communication to a list.
fn add_echo(tasks: &mut Vec<SetupTask>)
    requires
        all_valid(old(tasks)@),
    ensures
        final(tasks)@ == old(tasks)@ + echo_tasks(),
        all_valid(final(tasks)@),
{
    let mut i: u32 = 0;
    assert(tasks@ =~= old(tasks)@ + echo_tasks().take(0));
    while i < 32
        invariant
            i <= 32,
            tasks@ == old(tasks)@ + echo_tasks().take(i as int),
            all_valid(tasks@),
        decreases 32 - i,
    {
        add_task(tasks, SetupTask::WriteEcho(Echo::Word(1u32 << i)));
        i += 1;
        assert(tasks@ =~= old(tasks)@ + echo_tasks().take(i as int));
    }
    assert(echo_tasks().take(32) =~= echo_tasks());
}

/// Adds the setup of the system clock to a list.
fn add_oscillator(tasks: &mut Vec<SetupTask>, oscillator: OscillatorConfiguration)
    requires
        all_valid(old(tasks)@),
    ensures
        final(tasks)@ == old(tasks)@ + oscillator_tasks(oscillator),
        all_valid(final(tasks)@),
{
    add_edit(tasks, Edit::Oscillator(oscillator));
    if let Pll::On = oscillator.pll {
        add_task(tasks, SetupTask::AwaitPll(Awaited::Pll.begin()));
    }
    assert(tasks@ =~= old(tasks)@ + oscillator_tasks(oscillator));
}

/// Adds the setup of the bit timing to a list.
fn add_bit_timing(tasks: &mut Vec<SetupTask>, timing: BitTimeConfiguration)
    requires
        all_valid(old(tasks)@),
    ensures
        final(tasks)@ == old(tasks)@ + bit_timing_tasks(timing),
        all_valid(final(tasks)@),
{
    add_edit(tasks, Edit::NominalBitTime(timing.nominal));
    add_edit(tasks, Edit::DataBitTime(timing.data));
    add_edit(tasks, Edit::DelayCompensation(timing.data));
    assert(tasks@ =~= old(tasks)@ + bit_timing_tasks(timing));
}

/// Adds the setup of the transmit event FIFO to a list.
fn add_tx_event_fifo(tasks: &mut Vec<SetupTask>, config: Option<TxEventFifoConfiguration>)
    requires
        all_valid(old(tasks)@),
    ensures
        final(tasks)@ == old(tasks)@ + tx_event_fifo_tasks(config),
        all_valid(final(tasks)@),
{
    add_edit(tasks, Edit::EnableTxEventFifo(config.is_some()));
    if let Some(config) = config {
        add_edit(tasks, Edit::TxEventFifo(config));
    }
    assert(tasks@ =~= old(tasks)@ + tx_event_fifo_tasks(config));
}

/// Adds the setup of the transmit queue to a list.
fn add_tx_queue(tasks: &mut Vec<SetupTask>, config: Option<TxQueueConfiguration>)
    requires
        all_valid(old(tasks)@),
    ensures
        final(tasks)@ == old(tasks)@ + tx_queue_tasks(config),
        all_valid(final(tasks)@),
{
    add_edit(tasks, Edit::EnableTxQueue(config.is_some()));
    if let Some(config) = config {
        add_edit(tasks, Edit::TxQueue(config));
    }
    assert(tasks@ =~= old(tasks)@ + tx_queue_tasks(config));
}

/// Adds the setup of the time base counter and of the data bits that filters compare to a list.
fn add_counter_and_data_bits(tasks: &mut Vec<SetupTask>, settings: &Settings)
    requires
        all_valid(old(tasks)@),
    ensures
        final(tasks)@ == old(tasks)@ + counter_tasks(*settings) + data_bits_tasks(*settings),
        all_valid(final(tasks)@),
{
    if let Some(counter) = settings.time_base_counter {
        add_edit(tasks, Edit::TimeBaseCounter(counter.prescaler));
    }
    assert(tasks@ =~= old(tasks)@ + counter_tasks(*settings));
    let ghost before = tasks@;
    if let Some(count) = settings.data_bits_to_match {
        if count != 0 {
            add_edit(tasks, Edit::DataBitsToMatch(count));
        }
    }
    assert(tasks@ =~= before + data_bits_tasks(*settings));
}

/// The interrupts that the settings enable.
fn select_interrupts(settings: &Settings) -> (selection: InterruptSelection)
    ensures
        selection == selected_interrupts(*settings),
{
    InterruptSelection {
        can_errors: settings.enable_can_error_interrupts,
        spi_errors: settings.enable_spi_error_interrupt,
        ecc_errors: settings.enable_ecc_error_interrupt,
        counter_overflow: match settings.time_base_counter {
            Some(counter) => counter.overflow_interrupt,
            None => false,
        },
    }
}

impl<SPI> MCP2518FD<SPI> {
    /// Performs a software reset of the MCP2518FD chip over SPI, leaving it in Configuration
    /// mode with the oscillator running.
    ///
    /// Neither the mode request nor the RESET instruction work while the device is in Sleep
    /// mode, so the oscillator is first re-enabled by clearing OSC.OSCDIS (this also wakes a
    /// device in Low Power Mode, and resets PLLEN/SCLKDIV to their defaults, which
    /// [`MCP2518FD::configure_osc`] restores). The RESET instruction is only defined for a
    /// device in Configuration mode (datasheet section 4.1.1), so that mode is requested next.
    /// A failure to get there is ignored because a reset is the recovery path for a wedged
    /// controller; the state is verified after the reset instead. Times out after roughly
    /// 30 ms if the oscillator does not report ready or the device is not in Configuration
    /// mode.
    pub fn reset(&self) -> (plan: SetupPlan)
        ensures
            plan@ == SetupPlanView::of(reset_tasks()),
    {
        // Power-on defaults: clock enabled, PLL off, SYSCLK undivided, CLKO divided by 10.
        let mut osc = OscillatorControlRegister(0);
        osc.set_oscdis(false);
        osc.set_clkodiv(0b11);
        proof {
            assert(with_field(with_bit(0u32, 2, false), 5, 2, 3) == 0x60) by (bit_vector);
        }
        let mut tasks: Vec<SetupTask> = Vec::new();
        add_task(
            &mut tasks,
            SetupTask::Change(RegisterTask::Write(SFRAddress::OSC, osc.into_bits())),
        );
        add_mode(&mut tasks, OperationMode::Configuration, OnFailure::Ignore);
        add_task(&mut tasks, SetupTask::SendReset);
        add_task(&mut tasks, SetupTask::AwaitReset(Awaited::Reset.begin()));
        assert(tasks@ =~= reset_tasks());
        SetupPlan::new(tasks)
    }

    /// Does a full configuration sequence of the chip using the provided settings. This puts the
    /// chip into configuration mode if it isn't already, verifies that SPI communication with
    /// the chip is working, and writes to all the necessary configuration registers.
    ///
    /// You may want to reset the chip before this. See [`MCP2518FD::reset`] for more information.
    ///
    /// The data_bits_to_match field must be within 1..=18 if it is `Some`. A value of Some(0)
    /// will be interpreted the same as None.
    pub fn configure(&self, settings: Settings) -> (plan: SetupPlan)
        ensures
            plan@ == SetupPlanView::of(configure_tasks(settings)),
    {
        let mut tasks: Vec<SetupTask> = Vec::new();
        add_mode(&mut tasks, OperationMode::Configuration, OnFailure::ReportTimeout);
        assert(tasks@ =~= seq![
            SetupTask::set_mode(OperationMode::Configuration, OnFailure::ReportTimeout),
        ]);
        add_echo(&mut tasks);
        add_oscillator(&mut tasks, settings.oscillator);
        let ghost before = tasks@;
        add_task(&mut tasks, SetupTask::Change(RegisterTask::ReadIo(settings.io_configuration)));
        assert(tasks@ =~= before + io_tasks(settings.io_configuration));
        add_bit_timing(&mut tasks, settings.bit_time_configuration);
        add_tx_event_fifo(&mut tasks, settings.tx_event_fifo);
        add_tx_queue(&mut tasks, settings.tx_queue);
        add_counter_and_data_bits(&mut tasks, &settings);
        add_edit(&mut tasks, Edit::LimitRetransmissions);
        add_edit(&mut tasks, Edit::Interrupts(select_interrupts(&settings)));
        assert(tasks@ =~= configure_tasks(settings));
        SetupPlan::new(tasks)
    }

    /// Changes the operating mode of the chip.
    ///
    /// Leaving Normal mode waits for the bus to become idle, which can take a full frame
    /// (about 75 ms for a CAN FD frame at 10 kbit/s), so this polls for up to 100 ms.
    pub fn set_op_mode(&self, op_mode: OperationMode) -> (plan: SetupPlan)
        ensures
            plan@ == SetupPlanView::of(seq![SetupTask::set_mode(op_mode, OnFailure::Report)]),
    {
        let mut tasks: Vec<SetupTask> = Vec::new();
        add_mode(&mut tasks, op_mode, OnFailure::Report);
        assert(tasks@ =~= seq![SetupTask::set_mode(op_mode, OnFailure::Report)]);
        SetupPlan::new(tasks)
    }

    /// Sets up the system clock, and waits up to 30 ms for the PLL to lock if it is used.
    pub fn configure_osc(&self, oscillator_settings: OscillatorConfiguration) -> (plan: SetupPlan)
        ensures
            plan@ == SetupPlanView::of(oscillator_tasks(oscillator_settings)),
    {
        let mut tasks: Vec<SetupTask> = Vec::new();
        add_oscillator(&mut tasks, oscillator_settings);
        assert(tasks@ =~= oscillator_tasks(oscillator_settings));
        SetupPlan::new(tasks)
    }

    /// Sets up the I/O pins.
    pub fn configure_io(&self, io_config: IoConfiguration) -> (plan: SetupPlan)
        ensures
            plan@ == SetupPlanView::of(io_tasks(io_config)),
    {
        let mut tasks: Vec<SetupTask> = Vec::new();
        add_task(&mut tasks, SetupTask::Change(RegisterTask::ReadIo(io_config)));
        assert(tasks@ =~= io_tasks(io_config));
        SetupPlan::new(tasks)
    }

    /// Sets up the bit timing of both phases, with automatic transmitter delay compensation.
    pub fn configure_bit_timing(&self, bit_time_config: BitTimeConfiguration) -> (plan: SetupPlan)
        ensures
            plan@ == SetupPlanView::of(bit_timing_tasks(bit_time_config)),
    {
        let mut tasks: Vec<SetupTask> = Vec::new();
        add_bit_timing(&mut tasks, bit_time_config);
        assert(tasks@ =~= bit_timing_tasks(bit_time_config));
        SetupPlan::new(tasks)
    }

    /// Enables/Disables the transmit event FIFO by setting C1CON.STEF and appropriate C1TEFCON
    /// bits. Be aware that fifo_size MUST be <= 32 and > 0, any other values will be clamped to
    /// 32.
    ///
    /// Also please keep in mind that the total RAM size is 2K and nothing validates that the
    /// configuration is under this limit. The documentation recommends configuring the TEF
    /// first, then TEQ, then FIFOs as necessary.
    pub fn configure_tx_event_fifo(
        &self,
        tx_event_fifo_config: Option<TxEventFifoConfiguration>,
    ) -> (plan: SetupPlan)
        ensures
            plan@ == SetupPlanView::of(tx_event_fifo_tasks(tx_event_fifo_config)),
    {
        let mut tasks: Vec<SetupTask> = Vec::new();
        add_tx_event_fifo(&mut tasks, tx_event_fifo_config);
        assert(tasks@ =~= tx_event_fifo_tasks(tx_event_fifo_config));
        SetupPlan::new(tasks)
    }

    /// Enables/Disables the transmit queue by setting C1CON.TXEN and appropriate C1TXQCON bits.
    /// Be aware that fifo_size MUST be <= 32 and > 0, any other values will be clamped to 32.
    ///
    /// Also please keep in mind that the total RAM size is 2K and nothing validates that the
    /// configuration is under this limit. The documentation recommends configuring the TEF
    /// first, then TEQ, then FIFOs as necessary.
    pub fn configure_tx_queue(&self, tx_queue_config: Option<TxQueueConfiguration>) -> (plan:
        SetupPlan)
        ensures
            plan@ == SetupPlanView::of(tx_queue_tasks(tx_queue_config)),
    {
        let mut tasks: Vec<SetupTask> = Vec::new();
        add_tx_queue(&mut tasks, tx_queue_config);
        assert(tasks@ =~= tx_queue_tasks(tx_queue_config));
        SetupPlan::new(tasks)
    }

    /// Verify SPI connection is working by writing to an available ram location.
    pub fn verify_spi_communications(&self) -> (plan: SetupPlan)
        ensures
            plan@ == SetupPlanView::of(echo_tasks()),
    {
        let mut tasks: Vec<SetupTask> = Vec::new();
        add_echo(&mut tasks);
        assert(tasks@ =~= echo_tasks());
        SetupPlan::new(tasks)
    }

    /// Verify SPI connection is working by writing a long pattern to RAM.
    pub fn verify_spi_communications_long(&self) -> (plan: SetupPlan)
        ensures
            plan@ == SetupPlanView::of(seq![SetupTask::WriteEcho(Echo::WalkingBit)]),
    {
        let mut tasks: Vec<SetupTask> = Vec::new();
        add_task(&mut tasks, SetupTask::WriteEcho(Echo::WalkingBit));
        assert(tasks@ =~= seq![SetupTask::WriteEcho(Echo::WalkingBit)]);
        SetupPlan::new(tasks)
    }
}

} // verus!
