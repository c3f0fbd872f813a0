//! What reset and configuration achieve: how long they wait for the device, and what a device
//! holds once it is configured.

use vstd::prelude::*;

use crate::bits::{
    bytes_of, field, lemma_bytes_of_word_of, lemma_other_field_unchanged, lemma_word_of_bytes_of,
    with_bit,
};
use crate::memory::chip::{
    IOCON_INTOD, IOCON_SOF, IOCON_TXCANOD, IOCON_XSTBYEN, OSC_OSCDIS, OSC_PLLEN, OSC_PLLRDY,
    OSC_SCLKDIV,
};
use crate::memory::controller::configuration::{
    OperationMode, CON_DNCNT, CON_OPMOD, CON_REQOP, CON_RTXAT, CON_STEF, CON_TXQEN,
};
use crate::memory::{lemma_sfr_addresses, SFRAddress, RAM_START};
use crate::settings::{IoConfiguration, Settings};
use crate::spi::device::{
    lemma_ram_reads_back, lemma_ram_write_keeps_rest, lemma_register_byte_written,
    lemma_register_reads_back, register, stored, MEMORY_SIZE,
};
use crate::spi::edit::{with_io, Edit};
use crate::spi::effect::{
    acted, edited, lemma_edit_changes_one_register, lemma_operated_finished, lemma_operated_step,
    operated, Machine,
};
use crate::spi::operation::Action;
use crate::spi::setup::{
    bit_timing_tasks, configure_tasks, counter_tasks, data_bits_tasks, echo_tasks, io_tasks,
    oscillator_tasks, reset_tasks, selected_interrupts, tx_event_fifo_tasks, tx_queue_tasks,
    Awaited, Echo, OnFailure, Poll, SetupPlanProgressView, SetupPlanView, SetupTask,
};
use crate::spi::task::RegisterTask;
use crate::spi::transfer::{Progress, Reply};
use crate::spi::ConfigError;

verus! {

/// What the device shows during one attempt: the polled register, and C1CON.
pub ghost struct Sample {
    pub polled: u32,
    pub control: u32,
}

/// Whether the device has reached the awaited state at an attempt.
pub open spec fn is_reached(awaited: Awaited, sample: Sample) -> bool {
    &&& awaited.is_shown_by(sample.polled)
    &&& awaited is Reset ==> Awaited::Mode(OperationMode::Configuration).is_shown_by(sample.control)
}

/// Polling a device that shows `samples` at one attempt after the other: the result if polling is
/// complete, and the microseconds spent in pauses.
pub open spec fn polled(awaited: Awaited, poll: Poll, samples: Seq<Sample>) -> (
    Option<Result<(), ConfigError>>,
    int,
)
    decreases
            samples.len(),
            match poll {
                Poll::Read(_) => 2int,
                Poll::Confirm(_) => 1int,
                Poll::Pause(_) => 0int,
            },
{
    if samples.len() == 0 {
        (None, 0)
    } else {
        match poll {
            Poll::Read(_) => match poll.after(awaited, Reply::Word(samples[0].polled)) {
                Progress::Finished(result) => (Some(result), 0),
                Progress::Running(next) => polled(awaited, next, samples),
            },
            Poll::Confirm(_) => match poll.after(awaited, Reply::Word(samples[0].control)) {
                Progress::Finished(result) => (Some(result), 0),
                Progress::Running(next) => polled(awaited, next, samples),
            },
            Poll::Pause(_) => match poll.after(awaited, Reply::Done) {
                Progress::Finished(result) => (Some(result), 0),
                Progress::Running(next) => {
                    let (result, pause) = polled(awaited, next, samples.skip(1));
                    (result, pause + awaited.interval())
                },
            },
        }
    }
}

/// Polling with a number of attempts left succeeds exactly if one of them shows the awaited
/// state, pauses only between attempts, and times out otherwise.
pub proof fn lemma_polled(awaited: Awaited, left: u32, samples: Seq<Sample>)
    requires
        samples.len() > left,
    ensures
        polled(awaited, Poll::Read(left), samples).0 == Some(
            if exists|i: int| 0 <= i <= left && is_reached(awaited, #[trigger] samples[i]) {
                Ok::<(), ConfigError>(())
            } else {
                Err::<(), ConfigError>(awaited.timeout())
            },
        ),
        0 <= polled(awaited, Poll::Read(left), samples).1 <= left * awaited.interval(),
    decreases left,
{
    reveal_with_fuel(polled, 4);
    if is_reached(awaited, samples[0]) {
        assert(polled(awaited, Poll::Read(left), samples) == (Some(Ok::<(), ConfigError>(())), 0int));
        assert(0 <= left * awaited.interval()) by (nonlinear_arith)
            requires
                0 <= left,
                0 <= awaited.interval(),
        ;
    } else if left == 0 {
        assert(polled(awaited, Poll::Read(left), samples) == (
            Some(Err::<(), ConfigError>(awaited.timeout())),
            0int,
        ));
    } else {
        let rest = samples.skip(1);
        let fewer = (left - 1) as u32;
        lemma_polled(awaited, fewer, rest);
        let (result, pause) = polled(awaited, Poll::Read(fewer), rest);
        assert(polled(awaited, Poll::Read(left), samples) == (
            result,
            pause + awaited.interval(),
        ));
        if exists|i: int| 0 <= i <= left && is_reached(awaited, #[trigger] samples[i]) {
            let i = choose|i: int| 0 <= i <= left && is_reached(awaited, #[trigger] samples[i]);
            assert(rest[i - 1] == samples[i]);
        }
        if exists|i: int| 0 <= i <= fewer && is_reached(awaited, #[trigger] rest[i]) {
            let i = choose|i: int| 0 <= i <= fewer && is_reached(awaited, #[trigger] rest[i]);
            assert(samples[i + 1] == rest[i]);
        }
        assert(fewer * awaited.interval() + awaited.interval() == left * awaited.interval())
            by (nonlinear_arith)
            requires
                fewer == left - 1,
        ;
    }
}

/// Waiting for a mode takes at most 500 attempts and 100 ms of pauses, waiting for the PLL or for
/// the end of a reset at most 60 attempts and 30 ms. It succeeds exactly if an attempt shows the
/// awaited state.
pub proof fn lemma_waiting_is_bounded(awaited: Awaited, samples: Seq<Sample>)
    requires
        samples.len() >= awaited.attempts(),
    ensures
        polled(awaited, awaited.start(), samples).0 == Some(
            if exists|i: int|
                0 <= i < awaited.attempts() && is_reached(awaited, #[trigger] samples[i]) {
                Ok::<(), ConfigError>(())
            } else {
                Err::<(), ConfigError>(awaited.timeout())
            },
        ),
        polled(awaited, awaited.start(), samples).1 <= if awaited is Mode {
            100_000int
        } else {
            30_000int
        },
        awaited.attempts() == if awaited is Mode {
            500u32
        } else {
            60u32
        },
{
    let left = (awaited.attempts() - 1) as u32;
    lemma_polled(awaited, left, samples);
    let interval = awaited.interval();
    assert(left * interval <= 99_800 && (interval == 500 ==> left * interval <= 29_500))
        by (nonlinear_arith)
        requires
            left == 499 && interval == 200 || left == 59 && interval == 500,
    ;
    let reached = exists|i: int| 0 <= i <= left && is_reached(awaited, #[trigger] samples[i]);
    assert(reached == exists|i: int|
        0 <= i < awaited.attempts() && is_reached(awaited, #[trigger] samples[i]));
}

/// Whether a task is a mode change whose failure is ignored.
pub open spec fn ignores_failure(task: SetupTask) -> bool {
    match task {
        SetupTask::RequestMode(_, on_failure, _) => on_failure is Ignore,
        SetupTask::AwaitMode(_, on_failure, _) => on_failure is Ignore,
        _ => false,
    }
}

/// A reset does not fail because Configuration mode could not be requested or reached before it:
/// whatever the reply, the mode change goes on or ends without an error.
pub proof fn lemma_reset_ignores_mode_failure(task: SetupTask, reply: Reply<Seq<u8>>)
    requires
        ignores_failure(task),
    ensures
        ignores_failure(reset_tasks()[1]),
        match task.after(reply) {
            Progress::Finished(result) => result is Ok,
            Progress::Running(next) => ignores_failure(next),
        },
{
}

/// Matching no data bits is the same as not asking to match data bits.
pub proof fn lemma_no_data_bits(settings: Settings)
    requires
        settings.data_bits_to_match == Some(0u8),
    ensures
        configure_tasks(settings) == configure_tasks(
            (Settings { data_bits_to_match: None, ..settings }),
        ),
{
}

impl Machine for SetupPlanView {
    type Output = Result<(), ConfigError>;

    open spec fn asks(self) -> Action<Seq<u8>> {
        self.task.next_action()
    }

    open spec fn answered(self, reply: Reply<Seq<u8>>) -> SetupPlanProgressView {
        self.after(reply)
    }
}

/// Whether a task has not begun.
pub open spec fn is_whole(task: SetupTask) -> bool {
    match task {
        SetupTask::Change(change) => change is Read || change is Write || change is ReadIo,
        SetupTask::RequestMode(mode, _, change) => change == RegisterTask::Read(
            Edit::RequestMode(mode),
        ),
        SetupTask::AwaitMode(_, _, _) => false,
        SetupTask::AwaitPll(poll) => poll is Read,
        SetupTask::AwaitReset(poll) => poll is Read,
        SetupTask::WriteEcho(_) => true,
        SetupTask::ReadEcho(_) => false,
        SetupTask::SendReset => true,
    }
}

/// The memory after bytes 0, 1 and 3 of IOCON have been written.
pub open spec fn io_stored(memory: Seq<u8>, value: u32) -> Seq<u8> {
    let first = SFRAddress::IOCON.address() as int;
    stored(
        stored(
            stored(memory, first, seq![bytes_of(value)[0]]),
            first + 1,
            seq![bytes_of(value)[1]],
        ),
        first + 3,
        seq![bytes_of(value)[3]],
    )
}

/// The memory after a task of the setup.
pub open spec fn set_up(memory: Seq<u8>, task: SetupTask) -> Seq<u8> {
    match task {
        SetupTask::Change(RegisterTask::Read(edit)) => edited(memory, edit),
        SetupTask::Change(RegisterTask::Write(address, value)) => stored(
            memory,
            address.address() as int,
            bytes_of(value),
        ),
        SetupTask::Change(RegisterTask::ReadIo(io)) => io_stored(
            memory,
            with_io(register(memory, SFRAddress::IOCON), io),
        ),
        SetupTask::RequestMode(mode, _, _) => edited(memory, Edit::RequestMode(mode)),
        SetupTask::WriteEcho(echo) => stored(memory, RAM_START as int, echo.data()),
        _ => memory,
    }
}

/// Whether the device is in the state that a task waits for.
pub open spec fn is_settled(memory: Seq<u8>, task: SetupTask) -> bool {
    let control = register(memory, SFRAddress::C1CON);
    let oscillator = register(memory, SFRAddress::OSC);
    match task {
        SetupTask::RequestMode(mode, _, _) => Awaited::Mode(mode).is_shown_by(control),
        SetupTask::AwaitPll(_) => Awaited::Pll.is_shown_by(oscillator),
        SetupTask::AwaitReset(_) => is_reached(
            Awaited::Reset,
            (Sample { polled: oscillator, control }),
        ),
        _ => true,
    }
}

/// The memory after tasks of the setup, one after the other.
pub open spec fn set_up_all(memory: Seq<u8>, tasks: Seq<SetupTask>) -> Seq<u8>
    decreases tasks.len(),
{
    if tasks.len() == 0 {
        memory
    } else {
        set_up_all(set_up(memory, tasks[0]), tasks.skip(1))
    }
}

/// Whether the device is in the state that each task waits for, when it comes to that task.
pub open spec fn is_settled_for_all(memory: Seq<u8>, tasks: Seq<SetupTask>) -> bool
    decreases tasks.len(),
{
    tasks.len() == 0 || (is_settled(memory, tasks[0]) && is_settled_for_all(
        set_up(memory, tasks[0]),
        tasks.skip(1),
    ))
}

/// More actions than an operation needs make no difference.
pub(crate) proof fn lemma_operated_more<M: Machine>(
    progress: Progress<M, M::Output>,
    memory: Seq<u8>,
    limit: nat,
    more: nat,
)
    requires
        operated(progress, memory, limit).1 is Some,
        limit <= more,
    ensures
        operated(progress, memory, more) == operated(progress, memory, limit),
    decreases limit,
{
    reveal_with_fuel(operated, 1);
    match progress {
        Progress::Finished(_) => {},
        Progress::Running(machine) => {
            assert(limit > 0);
            let (memory, reply) = acted(memory, machine.asks());
            lemma_operated_more(
                machine.answered(reply),
                memory,
                (limit - 1) as nat,
                (more - 1) as nat,
            );
        },
    }
}

/// What comes after a task of the setup.
pub open spec fn following(rest: Seq<SetupTask>) -> SetupPlanProgressView {
    if rest.len() == 0 {
        Progress::Finished(Ok(()))
    } else {
        Progress::Running(SetupPlanView::of(rest))
    }
}

/// The plan at another task.
spec fn at(task: SetupTask, rest: Seq<SetupTask>) -> SetupPlanView {
    SetupPlanView { task, rest }
}

/// A task that changes a register takes two actions.
proof fn lemma_change_set_up(edit: Edit, rest: Seq<SetupTask>, memory: Seq<u8>, limit: nat)
    requires
        limit >= 2,
    ensures
        operated(Progress::Running(at(SetupTask::edit(edit), rest)), memory, limit) == operated(
            following(rest),
            edited(memory, edit),
            (limit - 2) as nat,
        ),
{
    let raw = register(memory, edit.address());
    let first = at(SetupTask::edit(edit), rest);
    let write = RegisterTask::Write(edit.address(), edit.applied(raw));
    let second = at(SetupTask::Change(write), rest);
    lemma_operated_step(first, memory, limit);
    assert(acted(memory, first.asks()) == (memory, Reply::<Seq<u8>>::Word(raw)));
    lemma_operated_step(second, memory, (limit - 1) as nat);
    assert(acted(memory, second.asks()) == (edited(memory, edit), Reply::<Seq<u8>>::Done));
}

/// A task that sets up the I/O pins takes four actions.
proof fn lemma_io_set_up(io: IoConfiguration, rest: Seq<SetupTask>, memory: Seq<u8>, limit: nat)
    requires
        limit >= 4,
    ensures
        operated(
            Progress::Running(at(SetupTask::Change(RegisterTask::ReadIo(io)), rest)),
            memory,
            limit,
        ) == operated(
            following(rest),
            io_stored(memory, with_io(register(memory, SFRAddress::IOCON), io)),
            (limit - 4) as nat,
        ),
{
    let raw = register(memory, SFRAddress::IOCON);
    let value = with_io(raw, io);
    let first = SFRAddress::IOCON.address() as int;
    let p = at(SetupTask::Change(RegisterTask::ReadIo(io)), rest);
    let p0 = at(SetupTask::Change(RegisterTask::WriteIo0(value)), rest);
    let p1 = at(SetupTask::Change(RegisterTask::WriteIo1(value)), rest);
    let p3 = at(SetupTask::Change(RegisterTask::WriteIo3(value)), rest);
    let m0 = stored(memory, first, seq![bytes_of(value)[0]]);
    let m1 = stored(m0, first + 1, seq![bytes_of(value)[1]]);
    let m3 = stored(m1, first + 3, seq![bytes_of(value)[3]]);
    lemma_operated_step(p, memory, limit);
    assert(acted(memory, p.asks()) == (memory, Reply::<Seq<u8>>::Word(raw)));
    lemma_operated_step(p0, memory, (limit - 1) as nat);
    assert(acted(memory, p0.asks()) == (m0, Reply::<Seq<u8>>::Done));
    lemma_operated_step(p1, m0, (limit - 2) as nat);
    assert(acted(m0, p1.asks()) == (m1, Reply::<Seq<u8>>::Done));
    lemma_operated_step(p3, m1, (limit - 3) as nat);
    assert(acted(m1, p3.asks()) == (m3, Reply::<Seq<u8>>::Done));
}

/// A change of the mode takes three actions on a device that is in that mode.
proof fn lemma_mode_set_up(task: SetupTask, rest: Seq<SetupTask>, memory: Seq<u8>, limit: nat)
    requires
        memory.len() == MEMORY_SIZE,
        task is RequestMode,
        is_whole(task),
        is_settled(memory, task),
        limit >= 3,
    ensures
        operated(Progress::Running(at(task, rest)), memory, limit) == operated(
            following(rest),
            set_up(memory, task),
            (limit - 3) as nat,
        ),
{
    let mode = task->RequestMode_0;
    let on_failure = task->RequestMode_1;
    let edit = Edit::RequestMode(mode);
    let raw = register(memory, SFRAddress::C1CON);
    let changed = edit.applied(raw);
    let after = edited(memory, edit);
    let p = at(task, rest);
    let write = RegisterTask::Write(SFRAddress::C1CON, changed);
    let p1 = at(SetupTask::RequestMode(mode, on_failure, write), rest);
    let p2 = at(SetupTask::AwaitMode(mode, on_failure, Awaited::Mode(mode).start()), rest);
    lemma_operated_step(p, memory, limit);
    assert(acted(memory, p.asks()) == (memory, Reply::<Seq<u8>>::Word(raw)));
    lemma_operated_step(p1, memory, (limit - 1) as nat);
    assert(acted(memory, p1.asks()) == (after, Reply::<Seq<u8>>::Done));
    lemma_edit_changes_one_register(memory, edit, SFRAddress::C1CON);
    lemma_other_field_unchanged(raw, CON_REQOP, 3, mode.code(), CON_OPMOD, 3);
    lemma_operated_step(p2, after, (limit - 2) as nat);
    assert(acted(after, p2.asks()) == (after, Reply::<Seq<u8>>::Word(changed)));
}

/// An echo takes two actions.
proof fn lemma_echo_set_up(echo: Echo, rest: Seq<SetupTask>, memory: Seq<u8>, limit: nat)
    requires
        memory.len() == MEMORY_SIZE,
        limit >= 2,
    ensures
        operated(Progress::Running(at(SetupTask::WriteEcho(echo), rest)), memory, limit)
            == operated(
            following(rest),
            set_up(memory, SetupTask::WriteEcho(echo)),
            (limit - 2) as nat,
        ),
{
    let data = echo.data();
    let after = stored(memory, RAM_START as int, data);
    let p = at(SetupTask::WriteEcho(echo), rest);
    let p1 = at(SetupTask::ReadEcho(echo), rest);
    lemma_ram_reads_back(memory, RAM_START, data);
    lemma_operated_step(p, memory, limit);
    assert(acted(memory, p.asks()) == (after, Reply::<Seq<u8>>::Done));
    lemma_operated_step(p1, after, (limit - 1) as nat);
    assert(acted(after, p1.asks()) == (after, Reply::<Seq<u8>>::Bytes(data)));
}

/// Each task of the setup takes at most four actions on a device that is in the state that the
/// task waits for.
#[verifier::rlimit(40)]
proof fn lemma_task_set_up(task: SetupTask, rest: Seq<SetupTask>, memory: Seq<u8>, limit: nat) -> (
used: nat)
    requires
        memory.len() == MEMORY_SIZE,
        is_whole(task),
        is_settled(memory, task),
        limit >= 4,
    ensures
        used <= 4,
        operated(Progress::Running(at(task, rest)), memory, limit) == operated(
            following(rest),
            set_up(memory, task),
            (limit - used) as nat,
        ),
        set_up(memory, task).len() == MEMORY_SIZE,
{
    let p = at(task, rest);
    match task {
        SetupTask::Change(RegisterTask::Read(edit)) => {
            lemma_change_set_up(edit, rest, memory, limit);
            2
        },
        SetupTask::Change(RegisterTask::ReadIo(io)) => {
            lemma_io_set_up(io, rest, memory, limit);
            4
        },
        SetupTask::RequestMode(_, _, _) => {
            lemma_mode_set_up(task, rest, memory, limit);
            3
        },
        SetupTask::WriteEcho(echo) => {
            lemma_echo_set_up(echo, rest, memory, limit);
            2
        },
        SetupTask::AwaitReset(poll) => {
            lemma_operated_step(p, memory, limit);
            let left = poll->Read_0;
            let next = at(SetupTask::AwaitReset(Poll::Confirm(left)), rest);
            lemma_operated_step(next, memory, (limit - 1) as nat);
            2
        },
        _ => {
            lemma_operated_step(p, memory, limit);
            1
        },
    }
}

/// On a device that is in the state that each task waits for, a setup succeeds, and achieves what
/// its tasks are to achieve, one after the other.
pub proof fn lemma_setup_achieved(tasks: Seq<SetupTask>, memory: Seq<u8>)
    requires
        memory.len() == MEMORY_SIZE,
        tasks.len() > 0,
        forall|i: int| 0 <= i < tasks.len() ==> is_whole(#[trigger] tasks[i]),
        is_settled_for_all(memory, tasks),
    ensures
        operated(Progress::Running(SetupPlanView::of(tasks)), memory, 4 * tasks.len()) == (
            set_up_all(memory, tasks),
            Some(Ok::<(), ConfigError>(())),
        ),
    decreases tasks.len(),
{
    reveal_with_fuel(set_up_all, 2);
    let rest = tasks.skip(1);
    let limit = 4 * tasks.len();
    assert(is_whole(tasks[0]));
    let used = lemma_task_set_up(tasks[0], rest, memory, limit);
    let after = set_up(memory, tasks[0]);
    let left = (limit - used) as nat;
    if rest.len() == 0 {
        lemma_operated_finished::<SetupPlanView>(Ok(()), after, left);
    } else {
        assert forall|i: int| 0 <= i < rest.len() implies is_whole(#[trigger] rest[i]) by {
            assert(rest[i] == tasks[i + 1]);
        }
        lemma_setup_achieved(rest, after);
        lemma_operated_more::<SetupPlanView>(following(rest), after, 4 * rest.len(), left);
    }
}

/// What becomes of a register's contents in a task of the setup.
pub open spec fn register_set_up(value: u32, address: SFRAddress, task: SetupTask) -> u32 {
    match task {
        SetupTask::Change(RegisterTask::Read(edit)) => if edit.address() == address {
            edit.applied(value)
        } else {
            value
        },
        SetupTask::Change(RegisterTask::Write(written, contents)) => if written == address {
            contents
        } else {
            value
        },
        SetupTask::Change(RegisterTask::ReadIo(io)) => if address is IOCON {
            with_io(value, io)
        } else {
            value
        },
        SetupTask::RequestMode(mode, _, _) => if address is C1CON {
            Edit::RequestMode(mode).applied(value)
        } else {
            value
        },
        _ => value,
    }
}

/// What becomes of a register's contents in tasks of the setup, one after the other.
pub open spec fn register_set_up_all(
    value: u32,
    address: SFRAddress,
    tasks: Seq<SetupTask>,
) -> u32
    decreases tasks.len(),
{
    if tasks.len() == 0 {
        value
    } else {
        register_set_up_all(register_set_up(value, address, tasks[0]), address, tasks.skip(1))
    }
}

/// Setting up the I/O pins leaves the GPIO pin status in byte 2 of IOCON as it is.
proof fn lemma_io_keeps_status(raw: u32, io: IoConfiguration)
    ensures
        bytes_of(with_io(raw, io))[2] == bytes_of(raw)[2],
{
    let value = |b: bool|
        if b {
            1u32
        } else {
            0u32
        };
    let r1 = with_bit(raw, IOCON_XSTBYEN, io.enable_tx_standby_pin);
    let r2 = with_bit(r1, IOCON_TXCANOD, io.tx_can_open_drain);
    let r3 = with_bit(r2, IOCON_SOF, io.start_of_frame_on_clko);
    let r4 = with_bit(r3, IOCON_INTOD, io.interrupt_pin_open_drain);
    lemma_other_field_unchanged(raw, IOCON_XSTBYEN, 1, value(io.enable_tx_standby_pin), 16, 8);
    lemma_other_field_unchanged(r1, IOCON_TXCANOD, 1, value(io.tx_can_open_drain), 16, 8);
    lemma_other_field_unchanged(r2, IOCON_SOF, 1, value(io.start_of_frame_on_clko), 16, 8);
    lemma_other_field_unchanged(r3, IOCON_INTOD, 1, value(io.interrupt_pin_open_drain), 16, 8);
    assert(field(raw, 16, 8) == raw / 0x1_0000 % 0x100 && field(r4, 16, 8) == r4 / 0x1_0000
        % 0x100) by (bit_vector);
}

/// Storing bytes 0, 1 and 3 of a value in IOCON sets the whole register, if the value has the
/// register's byte 2.
#[verifier::rlimit(40)]
proof fn lemma_io_stored(memory: Seq<u8>, value: u32, other: SFRAddress)
    requires
        memory.len() == MEMORY_SIZE,
        bytes_of(value)[2] == bytes_of(register(memory, SFRAddress::IOCON))[2],
    ensures
        register(io_stored(memory, value), other) == if other is IOCON {
            value
        } else {
            register(memory, other)
        },
{
    let io = SFRAddress::IOCON;
    let first = io.address() as int;
    let bytes = bytes_of(value);
    let m0 = stored(memory, first, seq![bytes[0]]);
    let m1 = stored(m0, first + 1, seq![bytes[1]]);
    lemma_sfr_addresses(io, other);
    lemma_sfr_addresses(other, io);
    lemma_register_byte_written(memory, io, 0, bytes[0], other);
    lemma_register_byte_written(m0, io, 1, bytes[1], other);
    lemma_register_byte_written(m1, io, 3, bytes[3], other);
    if other == io {
        let before = bytes_of(register(memory, io));
        lemma_bytes_of_word_of(before.update(0, bytes[0]));
        lemma_bytes_of_word_of(before.update(0, bytes[0]).update(1, bytes[1]));
        assert(before.update(0, bytes[0]).update(1, bytes[1]).update(3, bytes[3]) =~= bytes);
        lemma_word_of_bytes_of(value);
    }
}

/// A task of the setup does to each register what is stated for that register.
pub proof fn lemma_register_set_up(memory: Seq<u8>, task: SetupTask, address: SFRAddress)
    requires
        memory.len() == MEMORY_SIZE,
    ensures
        set_up(memory, task).len() == MEMORY_SIZE,
        register(set_up(memory, task), address) == register_set_up(
            register(memory, address),
            address,
            task,
        ),
{
    match task {
        SetupTask::Change(RegisterTask::Read(edit)) => {
            lemma_edit_changes_one_register(memory, edit, address);
        },
        SetupTask::Change(RegisterTask::Write(written, value)) => {
            lemma_register_reads_back(memory, written, value, address);
        },
        SetupTask::Change(RegisterTask::ReadIo(io)) => {
            let raw = register(memory, SFRAddress::IOCON);
            lemma_io_keeps_status(raw, io);
            lemma_io_stored(memory, with_io(raw, io), address);
        },
        SetupTask::RequestMode(mode, _, _) => {
            lemma_edit_changes_one_register(memory, Edit::RequestMode(mode), address);
        },
        SetupTask::WriteEcho(echo) => {
            lemma_ram_write_keeps_rest(memory, RAM_START, echo.data(), address, 0, 0);
        },
        _ => {},
    }
}

/// Tasks of the setup do to each register what is stated for that register.
pub proof fn lemma_register_set_up_all(
    memory: Seq<u8>,
    tasks: Seq<SetupTask>,
    address: SFRAddress,
)
    requires
        memory.len() == MEMORY_SIZE,
    ensures
        register(set_up_all(memory, tasks), address) == register_set_up_all(
            register(memory, address),
            address,
            tasks,
        ),
    decreases tasks.len(),
{
    if tasks.len() > 0 {
        lemma_register_set_up(memory, tasks[0], address);
        lemma_register_set_up_all(set_up(memory, tasks[0]), tasks.skip(1), address);
    }
}

/// Tasks in two parts do to a register what the parts do, one after the other.
proof fn lemma_register_set_up_parts(
    value: u32,
    address: SFRAddress,
    first: Seq<SetupTask>,
    second: Seq<SetupTask>,
)
    ensures
        register_set_up_all(value, address, first + second) == register_set_up_all(
            register_set_up_all(value, address, first),
            address,
            second,
        ),
    decreases first.len(),
{
    if first.len() == 0 {
        assert(first + second =~= second);
    } else {
        assert((first + second).skip(1) =~= first.skip(1) + second);
        assert((first + second)[0] == first[0]);
        lemma_register_set_up_parts(
            register_set_up(value, address, first[0]),
            address,
            first.skip(1),
            second,
        );
    }
}

/// Whether a task may be part of a configuration: it changes registers, tests the connection, or
/// waits for Configuration mode, or for the PLL if it is used.
pub open spec fn is_configuring(task: SetupTask, uses_pll: bool) -> bool {
    is_whole(task) && match task {
        SetupTask::Change(change) => !(change is Write),
        SetupTask::RequestMode(mode, _, _) => mode is Configuration,
        SetupTask::AwaitPll(_) => uses_pll,
        SetupTask::AwaitReset(_) => false,
        SetupTask::SendReset => false,
        _ => true,
    }
}

/// Whether a device is in Configuration mode, with a PLL that has locked if it is used.
pub open spec fn is_configurable(memory: Seq<u8>, uses_pll: bool) -> bool {
    &&& memory.len() == MEMORY_SIZE
    &&& Awaited::Mode(OperationMode::Configuration).is_shown_by(
        register(memory, SFRAddress::C1CON),
    )
    &&& uses_pll ==> Awaited::Pll.is_shown_by(register(memory, SFRAddress::OSC))
}

/// A configuration changes neither the current mode nor the PLL's state.
pub(crate) proof fn lemma_configuring_keeps_state(value: u32, task: SetupTask, uses_pll: bool)
    requires
        is_configuring(task, uses_pll),
    ensures
        field(register_set_up(value, SFRAddress::C1CON, task), CON_OPMOD, 3) == field(
            value,
            CON_OPMOD,
            3,
        ),
        field(register_set_up(value, SFRAddress::OSC, task), OSC_PLLRDY, 1) == field(
            value,
            OSC_PLLRDY,
            1,
        ),
{
    let number = |b: bool|
        if b {
            1u32
        } else {
            0u32
        };
    match task {
        SetupTask::Change(RegisterTask::Read(edit)) => {
            match edit {
                Edit::RequestMode(mode) => {
                    lemma_other_field_unchanged(value, CON_REQOP, 3, mode.code(), CON_OPMOD, 3);
                },
                Edit::EnableTxEventFifo(enabled) => {
                    lemma_other_field_unchanged(value, CON_STEF, 1, number(enabled), CON_OPMOD, 3);
                },
                Edit::EnableTxQueue(enabled) => {
                    lemma_other_field_unchanged(value, CON_TXQEN, 1, number(enabled), CON_OPMOD, 3);
                },
                Edit::DataBitsToMatch(count) => {
                    lemma_other_field_unchanged(value, CON_DNCNT, 5, count as u32, CON_OPMOD, 3);
                },
                Edit::LimitRetransmissions => {
                    lemma_other_field_unchanged(value, CON_RTXAT, 1, 1, CON_OPMOD, 3);
                },
                Edit::Oscillator(oscillator) => {
                    let on = number(oscillator.pll is On);
                    let divided = number(oscillator.divider is DivByTwo);
                    let r1 = with_bit(value, OSC_PLLEN, oscillator.pll is On);
                    let r2 = with_bit(r1, OSC_SCLKDIV, oscillator.divider is DivByTwo);
                    lemma_other_field_unchanged(value, OSC_PLLEN, 1, on, OSC_PLLRDY, 1);
                    lemma_other_field_unchanged(r1, OSC_SCLKDIV, 1, divided, OSC_PLLRDY, 1);
                    lemma_other_field_unchanged(r2, OSC_OSCDIS, 1, 0, OSC_PLLRDY, 1);
                },
                _ => {},
            }
        },
        SetupTask::RequestMode(mode, _, _) => {
            lemma_other_field_unchanged(value, CON_REQOP, 3, mode.code(), CON_OPMOD, 3);
        },
        _ => {},
    }
}

/// A configurable device is in the state that each task of a configuration waits for.
pub(crate) proof fn lemma_configurable_is_settled(memory: Seq<u8>, tasks: Seq<SetupTask>, uses_pll: bool)
    requires
        is_configurable(memory, uses_pll),
        forall|i: int| 0 <= i < tasks.len() ==> is_configuring(#[trigger] tasks[i], uses_pll),
    ensures
        is_settled_for_all(memory, tasks),
    decreases tasks.len(),
{
    if tasks.len() > 0 {
        let task = tasks[0];
        let rest = tasks.skip(1);
        assert(is_configuring(task, uses_pll));
        lemma_register_set_up(memory, task, SFRAddress::C1CON);
        lemma_register_set_up(memory, task, SFRAddress::OSC);
        lemma_configuring_keeps_state(register(memory, SFRAddress::C1CON), task, uses_pll);
        lemma_configuring_keeps_state(register(memory, SFRAddress::OSC), task, uses_pll);
        assert forall|i: int| 0 <= i < rest.len() implies is_configuring(
            #[trigger] rest[i],
            uses_pll,
        ) by {
            assert(rest[i] == tasks[i + 1]);
        }
        lemma_configurable_is_settled(set_up(memory, task), rest, uses_pll);
    }
}

/// Testing the connection changes no register.
proof fn lemma_echo_keeps_registers(value: u32, address: SFRAddress, tasks: Seq<SetupTask>)
    requires
        forall|i: int| 0 <= i < tasks.len() ==> (#[trigger] tasks[i]) is WriteEcho,
    ensures
        register_set_up_all(value, address, tasks) == value,
    decreases tasks.len(),
{
    if tasks.len() > 0 {
        assert(tasks[0] is WriteEcho);
        lemma_echo_keeps_registers(value, address, tasks.skip(1));
    }
}

/// What a register holds once the device is configured.
pub open spec fn configured(value: u32, address: SFRAddress, settings: Settings) -> u32 {
    match address {
        SFRAddress::C1CON => {
            let value = Edit::RequestMode(OperationMode::Configuration).applied(value);
            let value = Edit::EnableTxEventFifo(settings.tx_event_fifo is Some).applied(value);
            let value = Edit::EnableTxQueue(settings.tx_queue is Some).applied(value);
            let value = match settings.data_bits_to_match {
                Some(count) => if count == 0 {
                    value
                } else {
                    Edit::DataBitsToMatch(count).applied(value)
                },
                None => value,
            };
            Edit::LimitRetransmissions.applied(value)
        },
        SFRAddress::OSC => Edit::Oscillator(settings.oscillator).applied(value),
        SFRAddress::IOCON => with_io(value, settings.io_configuration),
        SFRAddress::C1NBTCFG => Edit::NominalBitTime(
            settings.bit_time_configuration.nominal,
        ).applied(value),
        SFRAddress::C1DBTCFG => Edit::DataBitTime(settings.bit_time_configuration.data).applied(
            value,
        ),
        SFRAddress::C1TDC => Edit::DelayCompensation(
            settings.bit_time_configuration.data,
        ).applied(value),
        SFRAddress::C1TEFCON => match settings.tx_event_fifo {
            Some(config) => Edit::TxEventFifo(config).applied(value),
            None => value,
        },
        SFRAddress::C1TXQCON => match settings.tx_queue {
            Some(config) => Edit::TxQueue(config).applied(value),
            None => value,
        },
        SFRAddress::C1TSCON => match settings.time_base_counter {
            Some(counter) => Edit::TimeBaseCounter(counter.prescaler).applied(value),
            None => value,
        },
        SFRAddress::C1INT => Edit::Interrupts(selected_interrupts(settings)).applied(value),
        _ => value,
    }
}

/// The tasks of a configuration do to each register what is stated for that register.
#[verifier::rlimit(40)]
proof fn lemma_configured_register(value: u32, address: SFRAddress, settings: Settings)
    ensures
        register_set_up_all(value, address, configure_tasks(settings)) == configured(
            value,
            address,
            settings,
        ),
{
    let t0 = seq![SetupTask::set_mode(OperationMode::Configuration, OnFailure::ReportTimeout)];
    let t1 = t0 + echo_tasks();
    let t2 = t1 + oscillator_tasks(settings.oscillator);
    let t3 = t2 + io_tasks(settings.io_configuration);
    let t4 = t3 + bit_timing_tasks(settings.bit_time_configuration);
    let t5 = t4 + tx_event_fifo_tasks(settings.tx_event_fifo);
    let t6 = t5 + tx_queue_tasks(settings.tx_queue);
    let t7 = t6 + counter_tasks(settings);
    let t8 = t7 + data_bits_tasks(settings);
    let last = seq![
        SetupTask::edit(Edit::LimitRetransmissions),
        SetupTask::edit(Edit::Interrupts(selected_interrupts(settings))),
    ];
    assert(configure_tasks(settings) == t8 + last);
    let v0 = register_set_up_all(value, address, t0);
    lemma_register_set_up_parts(value, address, t0, echo_tasks());
    lemma_echo_keeps_registers(v0, address, echo_tasks());
    lemma_register_set_up_parts(value, address, t1, oscillator_tasks(settings.oscillator));
    lemma_register_set_up_parts(value, address, t2, io_tasks(settings.io_configuration));
    lemma_register_set_up_parts(
        value,
        address,
        t3,
        bit_timing_tasks(settings.bit_time_configuration),
    );
    lemma_register_set_up_parts(value, address, t4, tx_event_fifo_tasks(settings.tx_event_fifo));
    lemma_register_set_up_parts(value, address, t5, tx_queue_tasks(settings.tx_queue));
    lemma_register_set_up_parts(value, address, t6, counter_tasks(settings));
    lemma_register_set_up_parts(value, address, t7, data_bits_tasks(settings));
    lemma_register_set_up_parts(value, address, t8, last);
    reveal_with_fuel(register_set_up_all, 4);
}

/// A device in Configuration mode, with a PLL that has locked if it is used, is configured
/// successfully, and then each of its registers holds what the settings say; registers that the
/// settings do not concern are left as they are.
pub proof fn lemma_configured(settings: Settings, memory: Seq<u8>)
    requires
        is_configurable(memory, settings.oscillator.pll is On),
    ensures
        ({
            let tasks = configure_tasks(settings);
            let (after, result) = operated(
                Progress::Running(SetupPlanView::of(tasks)),
                memory,
                4 * tasks.len(),
            );
            &&& result == Some(Ok::<(), ConfigError>(()))
            &&& forall|address: SFRAddress| #[trigger]
                register(after, address) == configured(
                    register(memory, address),
                    address,
                    settings,
                )
        }),
{
    let tasks = configure_tasks(settings);
    let uses_pll = settings.oscillator.pll is On;
    assert forall|i: int| 0 <= i < tasks.len() implies is_configuring(
        #[trigger] tasks[i],
        uses_pll,
    ) by {}
    lemma_configurable_is_settled(memory, tasks, uses_pll);
    assert forall|i: int| 0 <= i < tasks.len() implies is_whole(#[trigger] tasks[i]) by {
        assert(is_configuring(tasks[i], uses_pll));
    }
    lemma_setup_achieved(tasks, memory);
    let after = set_up_all(memory, tasks);
    assert forall|address: SFRAddress| #[trigger] register(after, address) == configured(
        register(memory, address),
        address,
        settings,
    ) by {
        lemma_register_set_up_all(memory, tasks, address);
        lemma_configured_register(register(memory, address), address, settings);
    }
}

/// The memory after the connection has been tested.
proof fn lemma_echoes_set_up(tasks: Seq<SetupTask>, memory: Seq<u8>)
    requires
        memory.len() == MEMORY_SIZE,
        forall|i: int| 0 <= i < tasks.len() ==> (#[trigger] tasks[i]) is WriteEcho,
    ensures
        is_settled_for_all(memory, tasks),
        set_up_all(memory, tasks).len() == MEMORY_SIZE,
        forall|i: int|
            0 <= i < MEMORY_SIZE && !(RAM_START <= i < RAM_START + 128) ==> #[trigger] set_up_all(
                memory,
                tasks,
            )[i] == memory[i],
    decreases tasks.len(),
{
    if tasks.len() > 0 {
        let rest = tasks.skip(1);
        assert(tasks[0] is WriteEcho);
        let after = set_up(memory, tasks[0]);
        assert forall|i: int| 0 <= i < rest.len() implies (#[trigger] rest[i]) is WriteEcho by {
            assert(rest[i] == tasks[i + 1]);
        }
        lemma_echoes_set_up(rest, after);
    }
}

/// Testing the connection, word by word or with a long pattern, succeeds with a device that stores
/// what is written to it, and changes nothing but the first bytes of the RAM.
pub proof fn lemma_connection_verified(tasks: Seq<SetupTask>, memory: Seq<u8>)
    requires
        tasks == echo_tasks() || tasks == seq![SetupTask::WriteEcho(Echo::WalkingBit)],
        memory.len() == MEMORY_SIZE,
    ensures
        ({
            let (after, result) = operated(
                Progress::Running(SetupPlanView::of(tasks)),
                memory,
                4 * tasks.len(),
            );
            &&& result == Some(Ok::<(), ConfigError>(()))
            &&& forall|i: int|
                0 <= i < MEMORY_SIZE && !(RAM_START <= i < RAM_START + 128) ==> #[trigger] after[i]
                    == memory[i]
        }),
{
    lemma_echoes_set_up(tasks, memory);
    lemma_setup_achieved(tasks, memory);
}

} // verus!
