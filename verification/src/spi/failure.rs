//! What operations result in when the device cannot be reached, or does not get into the state that
//! they wait for.

use vstd::arithmetic::power2::{lemma2_to64, lemma_pow2_strictly_increases, pow2};
use vstd::bits::lemma_u32_shl_is_mul;
use vstd::prelude::*;

use crate::bits::{bit, field, lemma_byte_order};
use crate::memory::controller::configuration::OperationMode;
use crate::memory::controller::fifo::payload_bytes;
use crate::memory::SFRAddress;
use crate::message::rx::RxMessageView;
use crate::settings::{OscillatorConfiguration, Pll, Settings, SysClkDivider};
use crate::spi::bringup::{
    is_settled_for_all, is_whole, lemma_configuring_keeps_state, lemma_operated_more,
    lemma_setup_achieved, set_up_all,
};
use crate::spi::device::{register, MEMORY_SIZE};
use crate::spi::edit::Edit;
use crate::spi::effect::{
    acted, edited, lemma_edit_changes_one_register, lemma_operated_finished, lemma_operated_step,
    operated, Machine,
};
use crate::spi::operation::{completion, word, Action, AttemptsQuery, FlagQuery};
use crate::spi::readback::{lemma_mode_request_reads_back, lemma_oscillator_reads_back};
use crate::spi::receive::{EventRead, EventStage, RxQuery, RxRead, RxStage};
use crate::spi::setup::{
    configure_tasks, echo_tasks, oscillator_tasks, reset_tasks, walking_bit, Awaited, Echo,
    OnFailure, Poll, SetupPlanView, SetupTask,
};
use crate::spi::task::{RegisterPlanView, RegisterTask};
use crate::spi::transfer::{Access, Progress, Reply};
use crate::spi::transmit::{TxPush, UncheckedPush};
use crate::spi::{config_error, ConfigError, Error};

verus! {

/// A read gives the word that was read, a write gives nothing, a failed access gives its error,
/// and a reply that does not fit is an error too.
pub proof fn lemma_replies(value: u32, data: Seq<u8>, error: Error)
    ensures
        word(Reply::Word(value)) == Ok::<u32, Error>(value),
        word(Reply::Failed(error)) == Err::<u32, Error>(error),
        word(Reply::Done) == Err::<u32, Error>(Error::Other),
        word(Reply::Bytes(data)) == Err::<u32, Error>(Error::Other),
        completion(Reply::Done) == Ok::<(), Error>(()),
        completion(Reply::Failed(error)) == Err::<(), Error>(error),
        completion(Reply::Word(value)) == Err::<(), Error>(Error::Other),
        completion(Reply::Bytes(data)) == Err::<(), Error>(Error::Other),
{
}

/// During configuration a failed SPI transfer counts as a timeout of Configuration mode, and any
/// other error is passed on.
pub proof fn lemma_config_error(error: Error)
    ensures
        error == Error::SPIRead || error == Error::SPIWrite ==> config_error(error)
            == ConfigError::ConfigurationModeTimeout,
        error != Error::SPIRead && error != Error::SPIWrite ==> config_error(error)
            == ConfigError::Other(error),
{
}

/// The first access that fails ends an operation with its error, whichever access it is.
pub proof fn lemma_failure_ends_operation(
    push: TxPush<Seq<u8>>,
    unchecked: UncheckedPush<Seq<u8>>,
    read: RxRead<RxMessageView>,
    event: EventRead,
    query: RxQuery,
    attempts: AttemptsQuery,
    flag: FlagQuery,
    plan: RegisterPlanView,
    error: Error,
)
    ensures
        push.answered(Reply::Failed(error)) == Progress::<
            TxPush<Seq<u8>>,
            Result<(), Error>,
        >::Finished(Err(error)),
        unchecked.answered(Reply::Failed(error)) == Progress::<
            UncheckedPush<Seq<u8>>,
            Result<(), Error>,
        >::Finished(Err(error)),
        read.answered(Reply::Failed(error)) == Progress::<
            RxRead<RxMessageView>,
            Result<Option<RxMessageView>, Error>,
        >::Finished(Err(error)),
        event.answered(Reply::Failed(error)) matches Progress::Finished(Err(reported)) && reported
            == error,
        query.answered(Reply::Failed(error)) == Progress::<RxQuery, Result<bool, Error>>::Finished(
            Err(error),
        ),
        attempts.answered(Reply::Failed(error)) == Progress::<
            AttemptsQuery,
            Result<bool, Error>,
        >::Finished(Err(error)),
        flag.result(Reply::Failed(error)) == Err::<bool, Error>(error),
        plan.answered(Reply::Failed(error)) == Progress::<
            RegisterPlanView,
            Result<(), Error>,
        >::Finished(Err(error)),
{
}

/// The first access that fails ends a setup: a failed SPI transfer as a timeout of Configuration
/// mode, any other failure as it is. A failed change of the mode may be reported as a timeout of
/// Configuration mode whatever it was, or be ignored, and then the setup goes on.
pub proof fn lemma_failure_ends_setup(plan: SetupPlanView, error: Error)
    ensures
        ({
            let next = plan.answered(Reply::Failed(error));
            let reported = if error == Error::SPIRead || error == Error::SPIWrite {
                ConfigError::ConfigurationModeTimeout
            } else {
                ConfigError::Other(error)
            };
            let failed = |with: ConfigError|
                Progress::<SetupPlanView, Result<(), ConfigError>>::Finished(Err(with));
            match plan.task {
                SetupTask::RequestMode(_, OnFailure::Ignore, _)
                | SetupTask::AwaitMode(_, OnFailure::Ignore, _) => if plan.rest.len() == 0 {
                    next == Progress::<SetupPlanView, Result<(), ConfigError>>::Finished(Ok(()))
                } else {
                    next == Progress::<SetupPlanView, Result<(), ConfigError>>::Running(
                        SetupPlanView { task: plan.rest[0], rest: plan.rest.skip(1) },
                    )
                },
                SetupTask::RequestMode(_, OnFailure::ReportTimeout, _)
                | SetupTask::AwaitMode(_, OnFailure::ReportTimeout, _) => next == failed(
                    ConfigError::ConfigurationModeTimeout,
                ),
                _ => next == failed(reported),
            }
        }),
{
}

/// Which register is polled, how often and at what pace: a mode in C1CON, 500 times with pauses
/// of 200 microseconds; the PLL and the end of a reset in OSC, 60 times with pauses of 500
/// microseconds.
pub proof fn lemma_polling_pace(mode: OperationMode, left: u32)
    ensures
        Awaited::Mode(mode).start() == Poll::Read(499),
        Poll::Read(left).next_action(Awaited::Mode(mode)) == Action::Access(
            Access::<Seq<u8>>::ReadSfr(SFRAddress::C1CON),
        ),
        Poll::Pause(left).next_action(Awaited::Mode(mode)) == Action::<Seq<u8>>::Delay(200),
        Awaited::Pll.start() == Poll::Read(59),
        Poll::Read(left).next_action(Awaited::Pll) == Action::Access(
            Access::<Seq<u8>>::ReadSfr(SFRAddress::OSC),
        ),
        Poll::Pause(left).next_action(Awaited::Pll) == Action::<Seq<u8>>::Delay(500),
        Awaited::Reset.start() == Poll::Read(59),
        Poll::Read(left).next_action(Awaited::Reset) == Action::Access(
            Access::<Seq<u8>>::ReadSfr(SFRAddress::OSC),
        ),
        Poll::Confirm(left).next_action(Awaited::Reset) == Action::Access(
            Access::<Seq<u8>>::ReadSfr(SFRAddress::C1CON),
        ),
        Poll::Pause(left).next_action(Awaited::Reset) == Action::<Seq<u8>>::Delay(500),
{
}

/// What a poll makes of the register that it reads: a mode is reached if OPMOD is its code, the PLL
/// has locked if PLLRDY is set, and a reset is over if OSCRDY is set and OPMOD is Configuration
/// mode. Otherwise the next attempt follows after a pause, and after the last one the operation
/// times out.
pub proof fn lemma_poll_decides(mode: OperationMode, left: u32, raw: u32)
    ensures
        ({
            let missed = |timeout: ConfigError|
                if left > 0 {
                    Progress::<Poll, Result<(), ConfigError>>::Running(Poll::Pause(left))
                } else {
                    Progress::<Poll, Result<(), ConfigError>>::Finished(Err(timeout))
                };
            let reached = Progress::<Poll, Result<(), ConfigError>>::Finished(Ok(()));
            &&& Poll::Read(left).after(Awaited::Mode(mode), Reply::Word(raw)) == if field(
                raw,
                21,
                3,
            ) == mode.code() {
                reached
            } else {
                missed(ConfigError::ChangeOpModeTimeout)
            }
            &&& Poll::Read(left).after(Awaited::Pll, Reply::Word(raw)) == if bit(raw, 8) {
                reached
            } else {
                missed(ConfigError::PLLNotReady)
            }
            &&& Poll::Read(left).after(Awaited::Reset, Reply::Word(raw)) == if bit(raw, 10) {
                Progress::<Poll, Result<(), ConfigError>>::Running(Poll::Confirm(left))
            } else {
                missed(ConfigError::ConfigurationModeTimeout)
            }
            &&& Poll::Confirm(left).after(Awaited::Reset, Reply::Word(raw)) == if field(raw, 21, 3)
                == 4 {
                reached
            } else {
                missed(ConfigError::ConfigurationModeTimeout)
            }
        }),
        left > 0 ==> forall|awaited: Awaited| #[trigger]
            Poll::Pause(left).after(awaited, Reply::Done) == Progress::<
                Poll,
                Result<(), ConfigError>,
            >::Running(Poll::Read((left - 1) as u32)),
{
}

/// The words that test the connection are the powers of two, one after the other, and the long
/// pattern holds the same words.
pub proof fn lemma_echo_data(i: int)
    requires
        0 <= i < 32,
    ensures
        echo_tasks().len() == 32,
        echo_tasks()[i] matches SetupTask::WriteEcho(Echo::Word(value)) && value == pow2(i as nat),
        walking_bit().len() == 128,
        walking_bit()[4 * i] + 0x100 * walking_bit()[4 * i + 1] + 0x1_0000 * walking_bit()[4 * i
            + 2] + 0x100_0000 * walking_bit()[4 * i + 3] == pow2(i as nat),
{
    lemma2_to64();
    lemma_pow2_strictly_increases(i as nat, 32);
    lemma_u32_shl_is_mul(1, i as u32);
    let value = 1u32 << (i as u32);
    lemma_byte_order(value, seq![0u8, 0, 0, 0], 0);
}

/// Data that tests the connection is written to the first RAM location and read back from there;
/// the connection works if it comes back as it was, and nothing else will do.
pub proof fn lemma_echo_compared(echo: Echo, data: Seq<u8>)
    ensures
        SetupTask::WriteEcho(echo).next_action() == Action::Access(
            Access::WriteRam(0x400, echo.data()),
        ),
        SetupTask::WriteEcho(echo).after(Reply::Done) == Progress::<
            SetupTask,
            Result<(), ConfigError>,
        >::Running(SetupTask::ReadEcho(echo)),
        SetupTask::ReadEcho(echo).next_action() == Action::Access(
            Access::<Seq<u8>>::ReadRam(0x400, echo.data().len() as usize),
        ),
        SetupTask::ReadEcho(echo).after(Reply::Bytes(data)) == Progress::<
            SetupTask,
            Result<(), ConfigError>,
        >::Finished(
            if data == echo.data() {
                Ok(())
            } else {
                Err(ConfigError::SPIFailedRAMEcho)
            },
        ),
{
}

/// Waiting for a mode that the device does not get into ends, after every attempt, in a timeout.
proof fn lemma_mode_never_reached(
    mode: OperationMode,
    on_failure: OnFailure,
    left: u32,
    rest: Seq<SetupTask>,
    memory: Seq<u8>,
    limit: nat,
)
    requires
        field(register(memory, SFRAddress::C1CON), 21, 3) != mode.code(),
        !(on_failure is Ignore),
        limit > 2 * left,
    ensures
        ({
            let task = SetupTask::AwaitMode(mode, on_failure, Poll::Read(left));
            operated(Progress::Running((SetupPlanView { task, rest })), memory, limit) == (
                memory,
                Some(
                    Err::<(), ConfigError>(
                        if on_failure is Report {
                            ConfigError::ChangeOpModeTimeout
                        } else {
                            ConfigError::ConfigurationModeTimeout
                        },
                    ),
                ),
            )
        }),
    decreases left,
{
    let raw = register(memory, SFRAddress::C1CON);
    let read = SetupPlanView {
        task: SetupTask::AwaitMode(mode, on_failure, Poll::Read(left)),
        rest,
    };
    lemma_operated_step(read, memory, limit);
    assert(acted(memory, read.asks()) == (memory, Reply::<Seq<u8>>::Word(raw)));
    if left == 0 {
        let error = if on_failure is Report {
            ConfigError::ChangeOpModeTimeout
        } else {
            ConfigError::ConfigurationModeTimeout
        };
        lemma_operated_finished::<SetupPlanView>(Err(error), memory, (limit - 1) as nat);
    } else {
        let pause = SetupPlanView {
            task: SetupTask::AwaitMode(mode, on_failure, Poll::Pause(left)),
            rest,
        };
        lemma_operated_step(pause, memory, (limit - 1) as nat);
        assert(acted(memory, pause.asks()) == (memory, Reply::<Seq<u8>>::Done));
        lemma_mode_never_reached(
            mode,
            on_failure,
            (left - 1) as u32,
            rest,
            memory,
            (limit - 2) as nat,
        );
    }
}

/// Waiting for a PLL that does not lock ends, after every attempt, in a timeout.
proof fn lemma_pll_never_locks(left: u32, rest: Seq<SetupTask>, memory: Seq<u8>, limit: nat)
    requires
        !bit(register(memory, SFRAddress::OSC), 8),
        limit > 2 * left,
    ensures
        operated(
            Progress::Running(
                (SetupPlanView { task: SetupTask::AwaitPll(Poll::Read(left)), rest }),
            ),
            memory,
            limit,
        ) == (memory, Some(Err::<(), ConfigError>(ConfigError::PLLNotReady))),
    decreases left,
{
    let raw = register(memory, SFRAddress::OSC);
    let read = SetupPlanView { task: SetupTask::AwaitPll(Poll::Read(left)), rest };
    lemma_operated_step(read, memory, limit);
    assert(acted(memory, read.asks()) == (memory, Reply::<Seq<u8>>::Word(raw)));
    if left == 0 {
        lemma_operated_finished::<SetupPlanView>(
            Err(ConfigError::PLLNotReady),
            memory,
            (limit - 1) as nat,
        );
    } else {
        let pause = SetupPlanView { task: SetupTask::AwaitPll(Poll::Pause(left)), rest };
        lemma_operated_step(pause, memory, (limit - 1) as nat);
        assert(acted(memory, pause.asks()) == (memory, Reply::<Seq<u8>>::Done));
        lemma_pll_never_locks((left - 1) as u32, rest, memory, (limit - 2) as nat);
    }
}

/// A change of the mode on a device that is in another mode and stays there: the mode is requested
/// in REQOP, and the change times out.
proof fn lemma_mode_not_changed(
    mode: OperationMode,
    on_failure: OnFailure,
    rest: Seq<SetupTask>,
    memory: Seq<u8>,
)
    requires
        memory.len() == MEMORY_SIZE,
        field(register(memory, SFRAddress::C1CON), 21, 3) != mode.code(),
        !(on_failure is Ignore),
    ensures
        ({
            let task = SetupTask::RequestMode(
                mode,
                on_failure,
                RegisterTask::Read(Edit::RequestMode(mode)),
            );
            operated(Progress::Running((SetupPlanView { task, rest })), memory, 1001) == (
                edited(memory, Edit::RequestMode(mode)),
                Some(
                    Err::<(), ConfigError>(
                        if on_failure is Report {
                            ConfigError::ChangeOpModeTimeout
                        } else {
                            ConfigError::ConfigurationModeTimeout
                        },
                    ),
                ),
            )
        }),
{
    let edit = Edit::RequestMode(mode);
    let raw = register(memory, SFRAddress::C1CON);
    let changed = edit.applied(raw);
    let after = edited(memory, edit);
    let p = SetupPlanView {
        task: SetupTask::RequestMode(mode, on_failure, RegisterTask::Read(edit)),
        rest,
    };
    let write = RegisterTask::Write(SFRAddress::C1CON, changed);
    let p1 = SetupPlanView { task: SetupTask::RequestMode(mode, on_failure, write), rest };
    lemma_operated_step(p, memory, 1001);
    assert(acted(memory, p.asks()) == (memory, Reply::<Seq<u8>>::Word(raw)));
    lemma_operated_step(p1, memory, 1000);
    assert(acted(memory, p1.asks()) == (after, Reply::<Seq<u8>>::Done));
    lemma_edit_changes_one_register(memory, edit, SFRAddress::C1CON);
    lemma_configuring_keeps_state(raw, SetupTask::edit(edit), false);
    lemma_mode_never_reached(mode, on_failure, 499, rest, after, 999);
}

/// Changing the mode requests it in REQOP, whatever was requested before, and changes nothing else.
/// It succeeds on a device that is in the mode, and times out on one that stays in another.
pub proof fn lemma_mode_change_outcome(mode: OperationMode, memory: Seq<u8>)
    requires
        memory.len() == MEMORY_SIZE,
    ensures
        ({
            let tasks = seq![SetupTask::set_mode(mode, OnFailure::Report)];
            let (after, result) = operated(
                Progress::Running(SetupPlanView::of(tasks)),
                memory,
                1001,
            );
            let before = register(memory, SFRAddress::C1CON);
            let control = register(after, SFRAddress::C1CON);
            &&& result == Some(
                if field(before, 21, 3) == mode.code() {
                    Ok::<(), ConfigError>(())
                } else {
                    Err::<(), ConfigError>(ConfigError::ChangeOpModeTimeout)
                },
            )
            &&& field(control, 24, 3) == mode.code()
            &&& control & !0x0700_0000u32 == before & !0x0700_0000u32
            &&& after.len() == MEMORY_SIZE
            &&& forall|i: int| 4 <= i < MEMORY_SIZE ==> #[trigger] after[i] == memory[i]
        }),
{
    let edit = Edit::RequestMode(mode);
    let task = SetupTask::set_mode(mode, OnFailure::Report);
    let tasks = seq![task];
    let rest = tasks.skip(1);
    let raw = register(memory, SFRAddress::C1CON);
    assert(rest =~= Seq::<SetupTask>::empty());
    lemma_mode_request_reads_back(raw, mode);
    lemma_edit_changes_one_register(memory, edit, SFRAddress::C1CON);
    if field(raw, 21, 3) == mode.code() {
        assert(is_settled_for_all(memory, tasks)) by {
            reveal_with_fuel(is_settled_for_all, 3);
        }
        assert forall|i: int| 0 <= i < tasks.len() implies is_whole(#[trigger] tasks[i]) by {}
        lemma_setup_achieved(tasks, memory);
        lemma_operated_more::<SetupPlanView>(
            Progress::Running(SetupPlanView::of(tasks)),
            memory,
            4,
            1001,
        );
        reveal_with_fuel(set_up_all, 3);
    } else {
        lemma_mode_not_changed(mode, OnFailure::Report, rest, memory);
    }
}

/// Setting up a clock with a PLL that does not lock times out, with the settings in OSC.
pub proof fn lemma_pll_timeout(oscillator: OscillatorConfiguration, memory: Seq<u8>)
    requires
        memory.len() == MEMORY_SIZE,
        oscillator.pll == Pll::On,
        !bit(register(memory, SFRAddress::OSC), 8),
    ensures
        ({
            let plan = SetupPlanView::of(oscillator_tasks(oscillator));
            let (after, result) = operated(Progress::Running(plan), memory, 121);
            let control = register(after, SFRAddress::OSC);
            &&& result == Some(Err::<(), ConfigError>(ConfigError::PLLNotReady))
            &&& bit(control, 0)
            &&& bit(control, 4) <==> oscillator.divider == SysClkDivider::DivByTwo
            &&& !bit(control, 2)
        }),
{
    let edit = Edit::Oscillator(oscillator);
    let raw = register(memory, SFRAddress::OSC);
    let after = edited(memory, edit);
    let tasks = oscillator_tasks(oscillator);
    let rest = tasks.skip(1);
    let p = SetupPlanView { task: SetupTask::edit(edit), rest };
    let write = RegisterTask::Write(SFRAddress::OSC, edit.applied(raw));
    let p1 = SetupPlanView { task: SetupTask::Change(write), rest };
    let p2 = SetupPlanView { task: SetupTask::AwaitPll(Poll::Read(59)), rest: rest.skip(1) };
    lemma_operated_step(p, memory, 121);
    assert(acted(memory, p.asks()) == (memory, Reply::<Seq<u8>>::Word(raw)));
    lemma_operated_step(p1, memory, 120);
    assert(acted(memory, p1.asks()) == (after, Reply::<Seq<u8>>::Done));
    assert(SetupPlanView::of(rest) == p2);
    lemma_edit_changes_one_register(memory, edit, SFRAddress::OSC);
    lemma_configuring_keeps_state(raw, SetupTask::edit(edit), false);
    lemma_oscillator_reads_back(raw, oscillator);
    lemma_pll_never_locks(59, rest.skip(1), after, 119);
}

/// Configuring a device that does not get into Configuration mode times out before anything but the
/// mode request is written.
pub proof fn lemma_configuration_timeout(settings: Settings, memory: Seq<u8>)
    requires
        memory.len() == MEMORY_SIZE,
        field(register(memory, SFRAddress::C1CON), 21, 3) != 4,
    ensures
        ({
            let plan = SetupPlanView::of(configure_tasks(settings));
            let (after, result) = operated(Progress::Running(plan), memory, 1001);
            &&& result == Some(Err::<(), ConfigError>(ConfigError::ConfigurationModeTimeout))
            &&& field(register(after, SFRAddress::C1CON), 24, 3) == 4
            &&& forall|i: int| 4 <= i < MEMORY_SIZE ==> #[trigger] after[i] == memory[i]
        }),
{
    let mode = OperationMode::Configuration;
    let tasks = configure_tasks(settings);
    lemma_mode_not_changed(mode, OnFailure::ReportTimeout, tasks.skip(1), memory);
    lemma_mode_request_reads_back(register(memory, SFRAddress::C1CON), mode);
    lemma_edit_changes_one_register(memory, Edit::RequestMode(mode), SFRAddress::C1CON);
}

/// A configuration goes on, once the device is in Configuration mode, with the test of the
/// connection, and it ends there if the data does not come back.
pub proof fn lemma_configuration_tests_connection(settings: Settings, i: int)
    requires
        0 <= i < 32,
    ensures
        ({
            let tasks = configure_tasks(settings);
            &&& tasks[0] == SetupTask::RequestMode(
                OperationMode::Configuration,
                OnFailure::ReportTimeout,
                RegisterTask::Read(Edit::RequestMode(OperationMode::Configuration)),
            )
            &&& tasks[1 + i] matches SetupTask::WriteEcho(Echo::Word(value)) && value == pow2(
                i as nat,
            )
        }),
        forall|echo: Echo, rest: Seq<SetupTask>, data: Seq<u8>|
            data != echo.data() ==> #[trigger] (SetupPlanView {
                task: SetupTask::ReadEcho(echo),
                rest,
            }).answered(Reply::Bytes(data)) == Progress::<
                SetupPlanView,
                Result<(), ConfigError>,
            >::Finished(Err(ConfigError::SPIFailedRAMEcho)),
{
    lemma_echo_data(i);
    assert(configure_tasks(settings)[1 + i] == echo_tasks()[i]);
}

/// A reset enables the oscillator first, by writing the power-on defaults to OSC. It requests
/// Configuration mode next. Whether this works or not, at whatever point and for whatever reason,
/// the RESET instruction follows. Then the reset waits for OSCRDY and for Configuration mode, and
/// that decides whether it succeeds.
#[verifier::rlimit(60)]
pub proof fn lemma_reset_steps(error: Error, raw: u32, control: u32)
    ensures
        ({
            let p0 = SetupPlanView::of(reset_tasks());
            &&& p0.asks() == Action::Access(Access::<Seq<u8>>::WriteSfr(SFRAddress::OSC, 0x60))
            &&& p0.answered(Reply::Done) matches Progress::Running(p1)
            &&& p1.asks() == Action::Access(Access::<Seq<u8>>::ReadSfr(SFRAddress::C1CON))
            &&& p1.answered(Reply::Failed(error)) matches Progress::Running(reset)
            &&& reset.asks() == Action::Access(Access::<Seq<u8>>::Reset)
            &&& p1.answered(Reply::Word(control)) matches Progress::Running(p2)
            &&& p2.asks() matches Action::Access(Access::WriteSfr(address, value))
            &&& address == SFRAddress::C1CON
            &&& field(value, 24, 3) == 4
            &&& p2.answered(Reply::Failed(error)) == Progress::<
                SetupPlanView,
                Result<(), ConfigError>,
            >::Running(reset)
            &&& p2.answered(Reply::Done) matches Progress::Running(p3)
            &&& p3.asks() == Action::Access(Access::<Seq<u8>>::ReadSfr(SFRAddress::C1CON))
            &&& p3.answered(Reply::Failed(error)) == Progress::<
                SetupPlanView,
                Result<(), ConfigError>,
            >::Running(reset)
            &&& field(control, 21, 3) == 4 ==> p3.answered(Reply::Word(control)) == Progress::<
                SetupPlanView,
                Result<(), ConfigError>,
            >::Running(reset)
            &&& reset.answered(Reply::Done) matches Progress::Running(p4)
            &&& p4.asks() == Action::Access(Access::<Seq<u8>>::ReadSfr(SFRAddress::OSC))
            &&& bit(raw, 10) ==> {
                &&& p4.answered(Reply::Word(raw)) matches Progress::Running(p5)
                &&& p5.asks() == Action::Access(Access::<Seq<u8>>::ReadSfr(SFRAddress::C1CON))
                &&& field(control, 21, 3) == 4 ==> p5.answered(Reply::Word(control)) == Progress::<
                    SetupPlanView,
                    Result<(), ConfigError>,
                >::Finished(Ok(()))
                &&& field(control, 21, 3) != 4 ==> {
                    &&& p5.answered(Reply::Word(control)) matches Progress::Running(p6)
                    &&& p6.asks() == Action::<Seq<u8>>::Delay(500)
                    &&& p6.answered(Reply::Done) matches Progress::Running(p7)
                    &&& p7.asks() == p4.asks()
                }
            }
            &&& !bit(raw, 10) ==> {
                &&& p4.answered(Reply::Word(raw)) matches Progress::Running(p6)
                &&& p6.asks() == Action::<Seq<u8>>::Delay(500)
                &&& p6.answered(Reply::Done) matches Progress::Running(p7)
                &&& p7.asks() == p4.asks()
            }
        }),
{
    lemma_mode_request_reads_back(control, OperationMode::Configuration);
}

/// A message or event object that is shorter or longer than was asked for is an error.
pub proof fn lemma_wrong_object_length(
    read: RxRead<RxMessageView>,
    event: EventRead,
    object: Seq<u8>,
)
    ensures
        read.stage matches RxStage::Object(control, _) ==> object.len() != payload_bytes(control) + (
        if bit(control, 5) {
            12int
        } else {
            8
        }) ==> read.answered(Reply::Bytes(object)) == Progress::<
            RxRead<RxMessageView>,
            Result<Option<RxMessageView>, Error>,
        >::Finished(Err(Error::Other)),
        event.stage matches EventStage::Object(with_timestamp, _) ==> object.len() != (
        if with_timestamp {
            12int
        } else {
            8
        }) ==> (event.answered(Reply::Bytes(object)) matches Progress::Finished(Err(error)) && error
            == Error::Other),
{
}

} // verus!
