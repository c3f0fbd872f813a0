//! What operations achieve on the model of the device.

use vstd::prelude::*;

use crate::bits::{
    bit, bytes_of, field, lemma_bit_reads_back, lemma_field_reads_back_exact,
    lemma_other_field_unchanged, with_bit, with_field, word_of,
};
use crate::memory::controller::configuration::CON_TXQEN;
use crate::memory::controller::fifo::{
    lemma_payload_bytes, payload_bytes, ram_address, FifoNumber, FIFOCON_RXTSEN, FIFOCON_TXEN,
    FIFOCON_TXREQ, FIFOSTA_TFNRFNIF, TEFCON_TEFTSEN, TEFSTA_TEFNEIF, TXQCON_TXREQ,
};
use crate::memory::controller::filter::{enable_position, pointer_position, FilterNumber};
use crate::memory::{in_ram, SFRAddress};
use crate::message::rx::{data_offset, object_message, RxMessageView};
use crate::message::tx::{TxEventObject, TxMessageView};
use crate::settings::FilterConfiguration;
use crate::spi::device::{
    accessed, lemma_ram_write_keeps_rest, lemma_register_byte_written, lemma_register_reads_back,
    register, stored, MEMORY_SIZE,
};
use crate::spi::edit::{with_filter_mask, with_filter_object, Edit};
use crate::spi::operation::Action;
use crate::spi::receive::{
    event_of, object_size, EventProgress, EventRead, EventStage, RxProgress, RxRead, RxResult,
    RxStage,
};
use crate::spi::task::{filter_tasks, RegisterPlanView, RegisterTask};
use crate::spi::transfer::{Access, Progress, Reply};
use crate::spi::transmit::{
    control_byte, stored_object, PushProgress, PushStage, TxPush, TxTarget, UncheckedProgress,
    UncheckedPush, UncheckedStage,
};
use crate::spi::Error;

verus! {

/// An operation, as far as its actions go.
pub trait Machine: Sized {
    /// What the operation results in.
    type Output;

    /// What to do next.
    spec fn asks(self) -> Action<Seq<u8>>;

    /// The operation after a reply.
    spec fn answered(self, reply: Reply<Seq<u8>>) -> Progress<Self, Self::Output>;
}

impl Machine for TxPush<Seq<u8>> {
    type Output = Result<(), Error>;

    open spec fn asks(self) -> Action<Seq<u8>> {
        self.next_action()
    }

    open spec fn answered(self, reply: Reply<Seq<u8>>) -> PushProgress<Seq<u8>> {
        self.after(reply)
    }
}

impl Machine for UncheckedPush<Seq<u8>> {
    type Output = Result<(), Error>;

    open spec fn asks(self) -> Action<Seq<u8>> {
        self.next_action()
    }

    open spec fn answered(self, reply: Reply<Seq<u8>>) -> UncheckedProgress<Seq<u8>> {
        self.after(reply)
    }
}

impl Machine for RxRead<RxMessageView> {
    type Output = RxResult<RxMessageView>;

    open spec fn asks(self) -> Action<Seq<u8>> {
        self.next_action()
    }

    open spec fn answered(self, reply: Reply<Seq<u8>>) -> RxProgress<RxMessageView> {
        self.after(reply)
    }
}

impl Machine for EventRead {
    type Output = Result<Option<TxEventObject>, Error>;

    open spec fn asks(self) -> Action<Seq<u8>> {
        self.next_action()
    }

    open spec fn answered(self, reply: Reply<Seq<u8>>) -> EventProgress {
        self.after(reply)
    }
}

impl Machine for RegisterPlanView {
    type Output = Result<(), Error>;

    open spec fn asks(self) -> Action<Seq<u8>> {
        self.task.next_action()
    }

    open spec fn answered(self, reply: Reply<Seq<u8>>) -> Progress<Self, Result<(), Error>> {
        self.after(reply)
    }
}

/// What the device does with an action: the memory afterwards, and the outcome.
pub open spec fn acted(memory: Seq<u8>, action: Action<Seq<u8>>) -> (Seq<u8>, Reply<Seq<u8>>) {
    match action {
        Action::Access(access) => accessed(memory, access),
        Action::Delay(_) => (memory, Reply::Done),
    }
}

/// An operation on the device that takes at most `limit` actions: the memory afterwards, and the
/// result if the operation is complete.
#[verifier::opaque]
pub open spec fn operated<M: Machine>(
    progress: Progress<M, M::Output>,
    memory: Seq<u8>,
    limit: nat,
) -> (Seq<u8>, Option<M::Output>)
    decreases limit,
{
    match progress {
        Progress::Finished(output) => (memory, Some(output)),
        Progress::Running(machine) => if limit == 0 {
            (memory, None)
        } else {
            let (memory, reply) = acted(memory, machine.asks());
            operated(machine.answered(reply), memory, (limit - 1) as nat)
        },
    }
}

/// An operation on the device goes on with what its first action leads to.
pub(crate) proof fn lemma_operated_step<M: Machine>(machine: M, memory: Seq<u8>, limit: nat)
    requires
        limit > 0,
    ensures
        operated(Progress::<M, M::Output>::Running(machine), memory, limit) == operated(
            machine.answered(acted(memory, machine.asks()).1),
            acted(memory, machine.asks()).0,
            (limit - 1) as nat,
        ),
{
    reveal_with_fuel(operated, 1);
}

/// An operation that is complete has its result.
pub(crate) proof fn lemma_operated_finished<M: Machine>(
    output: M::Output,
    memory: Seq<u8>,
    limit: nat,
)
    ensures
        operated(Progress::<M, M::Output>::Finished(output), memory, limit) == (
            memory,
            Some(output),
        ),
{
    reveal_with_fuel(operated, 1);
}

/// The memory after a change to a register.
pub open spec fn edited(memory: Seq<u8>, edit: Edit) -> Seq<u8> {
    stored(
        memory,
        edit.address().address() as int,
        bytes_of(edit.applied(register(memory, edit.address()))),
    )
}

/// The memory after changes to registers, one after the other.
pub open spec fn edited_all(memory: Seq<u8>, edits: Seq<Edit>) -> Seq<u8>
    decreases edits.len(),
{
    if edits.len() == 0 {
        memory
    } else {
        edited_all(edited(memory, edits[0]), edits.skip(1))
    }
}

/// The tasks that make changes to registers.
pub open spec fn edit_tasks(edits: Seq<Edit>) -> Seq<RegisterTask> {
    edits.map_values(|edit: Edit| RegisterTask::Read(edit))
}

/// A task that changes a register is one read and one write.
proof fn lemma_edit_achieved(edit: Edit, rest: Seq<RegisterTask>, memory: Seq<u8>, limit: nat)
    requires
        limit >= 2,
    ensures
        operated(
            Progress::Running((RegisterPlanView { task: RegisterTask::Read(edit), rest })),
            memory,
            limit,
        ) == operated(
            if rest.len() == 0 {
                Progress::Finished(Ok(()))
            } else {
                Progress::Running(RegisterPlanView::of(rest))
            },
            edited(memory, edit),
            (limit - 2) as nat,
        ),
{
    let first = RegisterPlanView { task: RegisterTask::Read(edit), rest };
    let raw = register(memory, edit.address());
    let second = RegisterPlanView {
        task: RegisterTask::Write(edit.address(), edit.applied(raw)),
        rest,
    };
    lemma_operated_step(first, memory, limit);
    assert(acted(memory, first.asks()) == (memory, Reply::<Seq<u8>>::Word(raw)));
    lemma_operated_step(second, memory, (limit - 1) as nat);
    assert(acted(memory, second.asks()) == (edited(memory, edit), Reply::<Seq<u8>>::Done));
}

/// A plan that changes registers makes exactly these changes, one after the other, and succeeds.
pub proof fn lemma_edits_achieved(edits: Seq<Edit>, memory: Seq<u8>)
    requires
        edits.len() > 0,
    ensures
        operated(
            Progress::Running(RegisterPlanView::of(edit_tasks(edits))),
            memory,
            2 * edits.len(),
        ) == (edited_all(memory, edits), Some(Ok::<(), Error>(()))),
    decreases edits.len(),
{
    reveal_with_fuel(edited_all, 2);
    let tasks = edit_tasks(edits);
    let rest = edits.skip(1);
    assert(tasks.skip(1) =~= edit_tasks(rest));
    lemma_edit_achieved(edits[0], tasks.skip(1), memory, 2 * edits.len());
    if rest.len() == 0 {
        lemma_operated_finished::<RegisterPlanView>(Ok(()), edited(memory, edits[0]), 0);
    } else {
        lemma_edits_achieved(rest, edited(memory, edits[0]));
    }
}

/// The changes that configure a filter.
pub open spec fn filter_edits(filter: FilterNumber, config: FilterConfiguration) -> Seq<Edit> {
    seq![
        Edit::DisableFilter(filter),
        Edit::FilterObject(filter, config),
        Edit::FilterMask(filter, config),
        Edit::EnableFilter(filter, config),
    ]
}

/// Configuring a filter makes these changes, and removing one disables it.
pub proof fn lemma_filter_tasks(filter: FilterNumber, config: FilterConfiguration)
    ensures
        filter_tasks(filter, Some(config)) == edit_tasks(filter_edits(filter, config)),
        filter_tasks(filter, None) == edit_tasks(seq![Edit::DisableFilter(filter)]),
{
    assert(filter_tasks(filter, Some(config)) =~= edit_tasks(filter_edits(filter, config)));
    assert(filter_tasks(filter, None) =~= edit_tasks(seq![Edit::DisableFilter(filter)]));
}

/// A change to a register changes that register as stated, and no other.
pub proof fn lemma_edit_changes_one_register(memory: Seq<u8>, edit: Edit, other: SFRAddress)
    requires
        memory.len() == MEMORY_SIZE,
    ensures
        edited(memory, edit).len() == MEMORY_SIZE,
        register(edited(memory, edit), other) == if other == edit.address() {
            edit.applied(register(memory, other))
        } else {
            register(memory, other)
        },
{
    lemma_register_reads_back(
        memory,
        edit.address(),
        edit.applied(register(memory, edit.address())),
        other,
    );
}

/// The fields of a filter control register after the filter at `place` has been enabled or
/// disabled, with or without a new buffer pointer.
proof fn lemma_filter_control(raw: u32, place: u8, pointer: u32, enabled: bool)
    requires
        place < 4,
        pointer < 32,
    ensures
        bit(with_bit(raw, enable_position(place), enabled), enable_position(place)) == enabled,
        ({
            let changed = with_bit(
                with_field(raw, pointer_position(place), 5, pointer),
                enable_position(place),
                enabled,
            );
            &&& bit(changed, enable_position(place)) == enabled
            &&& field(changed, pointer_position(place), 5) == pointer
        }),
        forall|other: u8|
            other < 4 && other != place ==> {
                let changed = with_bit(
                    with_field(raw, pointer_position(place), 5, pointer),
                    enable_position(place),
                    enabled,
                );
                &&& field(changed, #[trigger] pointer_position(other), 8) == field(
                    raw,
                    pointer_position(other),
                    8,
                )
                &&& field(
                    with_bit(raw, enable_position(place), enabled),
                    pointer_position(other),
                    8,
                ) == field(raw, pointer_position(other), 8)
            },
{
    let enable = enable_position(place);
    let value = if enabled {
        1u32
    } else {
        0u32
    };
    let pointed = with_field(raw, pointer_position(place), 5, pointer);
    assert((1u32 << 5u32) == 32u32) by (bit_vector);
    lemma_bit_reads_back(raw, enable, enabled);
    lemma_bit_reads_back(pointed, enable, enabled);
    lemma_field_reads_back_exact(raw, pointer_position(place), 5, pointer);
    lemma_other_field_unchanged(pointed, enable, 1, value, pointer_position(place), 5);
    assert forall|other: u8| other < 4 && other != place implies field(
        with_bit(pointed, enable, enabled),
        #[trigger] pointer_position(other),
        8,
    ) == field(raw, pointer_position(other), 8) && field(
        with_bit(raw, enable, enabled),
        pointer_position(other),
        8,
    ) == field(raw, pointer_position(other), 8) by {
        let lsb = pointer_position(other);
        lemma_other_field_unchanged(raw, pointer_position(place), 5, pointer, lsb, 8);
        lemma_other_field_unchanged(pointed, enable, 1, value, lsb, 8);
        lemma_other_field_unchanged(raw, enable, 1, value, lsb, 8);
    }
}

/// Configuring a filter sets its object and its mask, points it to its FIFO and enables it; it
/// is disabled all the while its object and mask are changed. No other register changes, nor do
/// the fields of the other filters in the same control register.
#[verifier::rlimit(40)]
pub proof fn lemma_filter_configured(
    memory: Seq<u8>,
    filter: FilterNumber,
    config: FilterConfiguration,
)
    requires
        memory.len() == MEMORY_SIZE,
    ensures
        ({
            let edits = filter_edits(filter, config);
            let after = edited_all(memory, edits);
            let control = SFRAddress::C1FLTCON(filter.control());
            let object = SFRAddress::C1FLTOBJ(filter);
            let mask = SFRAddress::C1MASK(filter);
            let place = (filter.index() % 4) as u8;
            &&& register(after, object) == with_filter_object(register(memory, object), config)
            &&& register(after, mask) == with_filter_mask(register(memory, mask), config)
            &&& bit(register(after, control), enable_position(place))
            &&& field(register(after, control), pointer_position(place), 5)
                == config.buffer_pointer.index()
            &&& forall|steps: int|
                1 <= steps <= 3 ==> !bit(
                    register(#[trigger] edited_all(memory, edits.take(steps)), control),
                    enable_position(place),
                )
            &&& forall|other: u8|
                other < 4 && other != place ==> field(
                    register(after, control),
                    #[trigger] pointer_position(other),
                    8,
                ) == field(register(memory, control), pointer_position(other), 8)
            &&& forall|other: SFRAddress|
                other != control && other != object && other != mask ==> #[trigger] register(
                    after,
                    other,
                ) == register(memory, other)
        }),
{
    let edits = filter_edits(filter, config);
    let control = SFRAddress::C1FLTCON(filter.control());
    let place = (filter.index() % 4) as u8;
    let m1 = edited(memory, edits[0]);
    let m2 = edited(m1, edits[1]);
    let m3 = edited(m2, edits[2]);
    let m4 = edited(m3, edits[3]);
    assert(edited_all(memory, edits) == m4) by {
        reveal_with_fuel(edited_all, 5);
        assert(edits.skip(1).skip(1).skip(1).skip(1) =~= Seq::<Edit>::empty());
    }
    assert(edited_all(memory, edits.take(1)) == m1) by {
        reveal_with_fuel(edited_all, 2);
    }
    assert(edited_all(memory, edits.take(2)) == m2) by {
        reveal_with_fuel(edited_all, 3);
    }
    assert(edited_all(memory, edits.take(3)) == m3) by {
        reveal_with_fuel(edited_all, 4);
    }
    assert forall|other: SFRAddress| true implies {
        &&& m1.len() == MEMORY_SIZE && m2.len() == MEMORY_SIZE && m3.len() == MEMORY_SIZE
        &&& #[trigger] register(m4, other) == if other == control {
            edits[3].applied(edits[0].applied(register(memory, control)))
        } else if other == edits[1].address() {
            edits[1].applied(register(memory, other))
        } else if other == edits[2].address() {
            edits[2].applied(register(memory, other))
        } else {
            register(memory, other)
        }
    } by {
        lemma_edit_changes_one_register(memory, edits[0], other);
        lemma_edit_changes_one_register(m1, edits[1], other);
        lemma_edit_changes_one_register(m2, edits[2], other);
        lemma_edit_changes_one_register(m3, edits[3], other);
    }
    lemma_edit_changes_one_register(memory, edits[0], control);
    lemma_edit_changes_one_register(m1, edits[1], control);
    lemma_edit_changes_one_register(m2, edits[2], control);
    let disabled = edits[0].applied(register(memory, control));
    let pointer = config.buffer_pointer.index() as u32;
    lemma_filter_control(register(memory, control), place, pointer, false);
    lemma_filter_control(disabled, place, pointer, true);
    assert(register(m4, control) == edits[3].applied(disabled));
    assert forall|steps: int| 1 <= steps <= 3 implies !bit(
        register(#[trigger] edited_all(memory, edits.take(steps)), control),
        enable_position(place),
    ) by {
        assert(steps == 1 || steps == 2 || steps == 3);
    }
}

/// Removing a filter disables it, and changes no other register, nor the fields of the other
/// filters in the same control register.
pub proof fn lemma_filter_removed(memory: Seq<u8>, filter: FilterNumber)
    requires
        memory.len() == MEMORY_SIZE,
    ensures
        ({
            let after = edited_all(memory, seq![Edit::DisableFilter(filter)]);
            let control = SFRAddress::C1FLTCON(filter.control());
            let place = (filter.index() % 4) as u8;
            &&& !bit(register(after, control), enable_position(place))
            &&& forall|other: u8|
                other < 4 && other != place ==> field(
                    register(after, control),
                    #[trigger] pointer_position(other),
                    8,
                ) == field(register(memory, control), pointer_position(other), 8)
            &&& forall|other: SFRAddress|
                other != control ==> #[trigger] register(after, other) == register(memory, other)
        }),
{
    let edit = Edit::DisableFilter(filter);
    let control = SFRAddress::C1FLTCON(filter.control());
    let after = edited_all(memory, seq![edit]);
    assert(after == edited(memory, edit)) by {
        reveal_with_fuel(edited_all, 2);
    }
    lemma_edit_changes_one_register(memory, edit, control);
    lemma_filter_control(register(memory, control), (filter.index() % 4) as u8, 0, false);
    assert forall|other: SFRAddress| other != control implies #[trigger] register(after, other)
        == register(memory, other) by {
        lemma_edit_changes_one_register(memory, edit, other);
    }
}

/// Writing IOCON stores bytes 0, 1 and 3 of the value and changes nothing else: byte 2, which
/// holds the GPIO pin status, is never written.
pub proof fn lemma_io_written(value: u32, memory: Seq<u8>)
    requires
        memory.len() == MEMORY_SIZE,
    ensures
        ({
            let plan = RegisterPlanView::of(seq![RegisterTask::WriteIo0(value)]);
            let (after, result) = operated(Progress::Running(plan), memory, 3);
            let first = SFRAddress::IOCON.address() as int;
            &&& result == Some(Ok::<(), Error>(()))
            &&& after.len() == MEMORY_SIZE
            &&& forall|i: int|
                0 <= i < MEMORY_SIZE ==> #[trigger] after[i] == if first <= i < first + 4 && i
                    != first + 2 {
                    bytes_of(value)[i - first]
                } else {
                    memory[i]
                }
        }),
{
    let rest = Seq::<RegisterTask>::empty();
    let plan = RegisterPlanView::of(seq![RegisterTask::WriteIo0(value)]);
    assert(plan.rest =~= rest);
    let p0 = RegisterPlanView { task: RegisterTask::WriteIo0(value), rest };
    let p1 = RegisterPlanView { task: RegisterTask::WriteIo1(value), rest };
    let p3 = RegisterPlanView { task: RegisterTask::WriteIo3(value), rest };
    let first = SFRAddress::IOCON.address() as int;
    let m0 = stored(memory, first, seq![bytes_of(value)[0]]);
    let m1 = stored(m0, first + 1, seq![bytes_of(value)[1]]);
    let m3 = stored(m1, first + 3, seq![bytes_of(value)[3]]);
    lemma_operated_step(p0, memory, 3);
    assert(acted(memory, p0.asks()) == (m0, Reply::<Seq<u8>>::Done));
    lemma_operated_step(p1, m0, 2);
    assert(acted(m0, p1.asks()) == (m1, Reply::<Seq<u8>>::Done));
    lemma_operated_step(p3, m1, 1);
    assert(acted(m1, p3.asks()) == (m3, Reply::<Seq<u8>>::Done));
    lemma_operated_finished::<RegisterPlanView>(Ok(()), m3, 0);
}

/// What a push of a message is to achieve: the memory afterwards, and the result.
pub open spec fn pushed(
    memory: Seq<u8>,
    target: TxTarget,
    message: TxMessageView,
    request_transmission: bool,
) -> (Seq<u8>, Result<(), Error>) {
    let control = register(memory, target.control());
    let address = ram_address(register(memory, target.user_address())) as u16;
    let object = stored_object(message);
    if target is Queue && !bit(register(memory, SFRAddress::C1CON), CON_TXQEN) {
        (memory, Err(Error::TxQueueDisabled))
    } else if let Some(error) = target.refusal(control, message.data.len() as int) {
        (memory, Err(error))
    } else if !target.has_room(register(memory, target.status())) {
        (memory, Err(Error::FifoFull))
    } else if !in_ram(address as int, object.len() as int) {
        (memory, Err(Error::InvalidRamAddress(address)))
    } else {
        (
            stored(
                stored(memory, address as int, object),
                target.control().address() + 1,
                seq![
                    control_byte(true, request_transmission || target.is_requested(control)),
                ],
            ),
            Ok(()),
        )
    }
}

/// A message that cannot be taken is refused with the reason, and then the device is left as it
/// is. Otherwise the message's object is stored in RAM where the device asks for it, and a
/// single byte of the control register is written, which increments the head, and requests
/// transmission if that is asked for or still pending.
pub proof fn lemma_push_achieved(
    target: TxTarget,
    message: TxMessageView,
    request_transmission: bool,
    memory: Seq<u8>,
)
    requires
        message.data.len() <= usize::MAX,
    ensures
        ({
            let push = TxPush::start(target, message, request_transmission);
            let (after, result) = pushed(memory, target, message, request_transmission);
            operated(Progress::Running(push), memory, 6) == (after, Some(result))
        }),
{
    let push = TxPush::start(target, message, request_transmission);
    let control = register(memory, target.control());
    let p1 = push.at(PushStage::Control);
    if target is Queue {
        lemma_operated_step(push, memory, 6);
        assert(acted(memory, push.asks()) == (
            memory,
            Reply::<Seq<u8>>::Word(register(memory, SFRAddress::C1CON)),
        ));
        if !bit(register(memory, SFRAddress::C1CON), CON_TXQEN) {
            lemma_operated_finished::<TxPush<Seq<u8>>>(Err(Error::TxQueueDisabled), memory, 5);
        } else {
            lemma_push_from_control(push, message, memory, 5);
        }
    } else {
        assert(push == p1);
        lemma_push_from_control(push, message, memory, 6);
    }
}

/// The part of a push that both the transmit queue and FIFOs share.
proof fn lemma_push_from_control(
    push: TxPush<Seq<u8>>,
    message: TxMessageView,
    memory: Seq<u8>,
    limit: nat,
)
    requires
        limit >= 5,
        push.data_len == message.data.len(),
        push.object == stored_object(message),
        push.target is Queue ==> bit(register(memory, SFRAddress::C1CON), CON_TXQEN),
    ensures
        operated(Progress::Running(push.at(PushStage::Control)), memory, limit) == (
            pushed(memory, push.target, message, push.request_transmission).0,
            Some(pushed(memory, push.target, message, push.request_transmission).1),
        ),
{
    let target = push.target;
    let control = register(memory, target.control());
    let status = register(memory, target.status());
    let user_address = register(memory, target.user_address());
    let address = ram_address(user_address) as u16;
    let p1 = push.at(PushStage::Control);
    lemma_operated_step(p1, memory, limit);
    assert(acted(memory, p1.asks()) == (memory, Reply::<Seq<u8>>::Word(control)));
    let left = (limit - 1) as nat;
    match target.refusal(control, message.data.len() as int) {
        Some(error) => {
            lemma_operated_finished::<TxPush<Seq<u8>>>(Err(error), memory, left);
        },
        None => {
            let p2 = push.at(PushStage::Status(control));
            lemma_operated_step(p2, memory, left);
            assert(acted(memory, p2.asks()) == (memory, Reply::<Seq<u8>>::Word(status)));
            let left = (limit - 2) as nat;
            if !target.has_room(status) {
                lemma_operated_finished::<TxPush<Seq<u8>>>(Err(Error::FifoFull), memory, left);
            } else {
                let p3 = push.at(PushStage::Address(control));
                lemma_operated_step(p3, memory, left);
                assert(acted(memory, p3.asks()) == (memory, Reply::<Seq<u8>>::Word(user_address)));
                lemma_push_from_store(
                    push.at(PushStage::Store(control, address)),
                    memory,
                    (limit - 3) as nat,
                );
            }
        },
    }
}

/// The part of a push that writes.
proof fn lemma_push_from_store(push: TxPush<Seq<u8>>, memory: Seq<u8>, limit: nat)
    requires
        limit >= 2,
        push.stage is Store,
        push.object.len() % 4 == 0,
    ensures
        ({
            let control = push.stage->Store_0;
            let address = push.stage->Store_1;
            let requested = push.request_transmission || push.target.is_requested(control);
            operated(Progress::Running(push), memory, limit) == if in_ram(
                address as int,
                push.object.len() as int,
            ) {
                (
                    stored(
                        stored(memory, address as int, push.object),
                        push.target.control().address() + 1,
                        seq![control_byte(true, requested)],
                    ),
                    Some(Ok::<(), Error>(())),
                )
            } else {
                (memory, Some(Err::<(), Error>(Error::InvalidRamAddress(address))))
            }
        }),
{
    let control = push.stage->Store_0;
    let address = push.stage->Store_1;
    let left = (limit - 1) as nat;
    lemma_operated_step(push, memory, limit);
    if in_ram(address as int, push.object.len() as int) {
        let m1 = stored(memory, address as int, push.object);
        assert(acted(memory, push.asks()) == (m1, Reply::<Seq<u8>>::Done));
        let next = push.at(PushStage::Increment(control));
        lemma_operated_step(next, m1, left);
        let m2 = acted(m1, next.asks()).0;
        lemma_operated_finished::<TxPush<Seq<u8>>>(Ok(()), m2, (limit - 2) as nat);
    } else {
        assert(acted(memory, push.asks()) == (
            memory,
            Reply::<Seq<u8>>::Failed(Error::InvalidRamAddress(address)),
        ));
        lemma_operated_finished::<TxPush<Seq<u8>>>(
            Err(Error::InvalidRamAddress(address)),
            memory,
            left,
        );
    }
}

/// An unchecked push does what a push into the transmit queue does that is not refused, whether or
/// not the queue is enabled, large enough and not full.
pub proof fn lemma_unchecked_push_achieved(message: TxMessageView, memory: Seq<u8>)
    requires
        memory.len() == MEMORY_SIZE,
        in_ram(
            ram_address(register(memory, SFRAddress::C1TXQUA)),
            stored_object(message).len() as int,
        ),
    ensures
        ({
            let push = UncheckedPush::start(message);
            let address = ram_address(register(memory, SFRAddress::C1TXQUA));
            let requested = bit(register(memory, SFRAddress::C1TXQCON), TXQCON_TXREQ);
            operated(Progress::Running(push), memory, 4) == (
                stored(
                    stored(memory, address, stored_object(message)),
                    SFRAddress::C1TXQCON.address() + 1,
                    seq![control_byte(true, requested)],
                ),
                Some(Ok::<(), Error>(())),
            )
        }),
        pushed(memory, TxTarget::Queue, message, false).1 is Ok ==> operated(
            Progress::Running(UncheckedPush::start(message)),
            memory,
            4,
        ).0 == pushed(memory, TxTarget::Queue, message, false).0,
{
    let push = UncheckedPush::start(message);
    let object = stored_object(message);
    let raw = register(memory, SFRAddress::C1TXQUA);
    let address = ram_address(raw) as u16;
    let control = register(memory, SFRAddress::C1TXQCON);
    let m1 = stored(memory, address as int, object);
    lemma_operated_step(push, memory, 4);
    assert(acted(memory, push.asks()) == (memory, Reply::<Seq<u8>>::Word(raw)));
    let p1 = push.at(UncheckedStage::Store(address));
    lemma_operated_step(p1, memory, 3);
    assert(acted(memory, p1.asks()) == (m1, Reply::<Seq<u8>>::Done));
    let p2 = push.at(UncheckedStage::Control);
    lemma_operated_step(p2, m1, 2);
    lemma_ram_write_keeps_rest(memory, address, object, SFRAddress::C1TXQCON, 0, 0);
    assert(acted(m1, p2.asks()) == (m1, Reply::<Seq<u8>>::Word(control)));
    let p3 = push.at(UncheckedStage::Increment(control));
    lemma_operated_step(p3, m1, 1);
    lemma_operated_finished::<UncheckedPush<Seq<u8>>>(Ok(()), acted(m1, p3.asks()).0, 0);
}

/// A single byte written to byte 1 of a control register sets UINC and TXREQ as the byte says, and
/// leaves every bit outside that byte as it was.
#[verifier::rlimit(40)]
proof fn lemma_control_byte_bits(raw: u32, value: u8)
    ensures
        ({
            let written = word_of(bytes_of(raw).update(1, value));
            &&& bit(written, 8) == (value % 2 == 1)
            &&& bit(written, FIFOCON_TXREQ) == (value / 2 % 2 == 1)
            &&& field(written, 0, 8) == field(raw, 0, 8)
            &&& field(written, 16, 16) == field(raw, 16, 16)
        }),
{
    let middle = value as u32;
    let low = raw % 0x100;
    let high = raw / 0x1_0000;
    let written = word_of(bytes_of(raw).update(1, value));
    assert(bytes_of(raw).update(1, value) =~= seq![
        low as u8,
        value,
        (high % 0x100) as u8,
        (high / 0x100) as u8,
    ]);
    assert(written == low + 0x100 * middle + 0x1_0000 * high);
    assert((field(written, 8, 1) == 1) == (middle % 2 == 1) && (field(written, 9, 1) == 1) == (middle
        / 2 % 2 == 1) && field(written, 0, 8) == field(raw, 0, 8) && field(written, 16, 16)
        == field(raw, 16, 16)) by (bit_vector)
        requires
            low == raw % 0x100,
            high == raw / 0x1_0000,
            middle < 0x100,
            written == low + 0x100 * middle + 0x1_0000 * high,
    ;
}

/// A push that succeeds increments the head of its queue or FIFO, never takes back a transmission
/// request that is still pending, and leaves the configuration in the control register as it is.
pub proof fn lemma_push_keeps_request(
    memory: Seq<u8>,
    target: TxTarget,
    message: TxMessageView,
    request_transmission: bool,
)
    requires
        memory.len() == MEMORY_SIZE,
        pushed(memory, target, message, request_transmission).1 is Ok,
    ensures
        ({
            let before = register(memory, target.control());
            let after = register(
                pushed(memory, target, message, request_transmission).0,
                target.control(),
            );
            &&& bit(after, 8)
            &&& bit(after, FIFOCON_TXREQ) <==> request_transmission || bit(before, FIFOCON_TXREQ)
            &&& field(after, 0, 8) == field(before, 0, 8)
            &&& field(after, 16, 16) == field(before, 16, 16)
        }),
{
    let control = target.control();
    let before = register(memory, control);
    let address = ram_address(register(memory, target.user_address())) as u16;
    let object = stored_object(message);
    let m1 = stored(memory, address as int, object);
    let value = control_byte(true, request_transmission || target.is_requested(before));
    lemma_ram_write_keeps_rest(memory, address, object, control, 0, 0);
    assert(register(m1, control) == before);
    lemma_register_byte_written(m1, control, 1, value, control);
    lemma_control_byte_bits(before, value);
}

/// What the read of a received message is to achieve: the memory afterwards, and the result.
pub open spec fn received(memory: Seq<u8>, fifo: FifoNumber, take: bool) -> (
    Seq<u8>,
    RxResult<RxMessageView>,
) {
    let control = register(memory, SFRAddress::C1FIFOCON(fifo));
    let address = ram_address(register(memory, SFRAddress::C1FIFOUA(fifo))) as u16;
    let size = object_size(control);
    if bit(control, FIFOCON_TXEN) {
        (memory, Err(Error::FifoNotRx))
    } else if !bit(register(memory, SFRAddress::C1FIFOSTA(fifo)), FIFOSTA_TFNRFNIF) {
        (memory, Ok(None))
    } else if !in_ram(address as int, size) {
        (memory, Err(Error::InvalidRamAddress(address)))
    } else {
        (
            if take {
                stored(
                    memory,
                    SFRAddress::C1FIFOCON(fifo).address() + 1,
                    seq![control_byte(true, false)],
                )
            } else {
                memory
            },
            Ok(
                Some(
                    object_message(
                        memory.subrange(address as int, address + size),
                        bit(control, FIFOCON_RXTSEN),
                        payload_bytes(control) as int,
                    ),
                ),
            ),
        )
    }
}

/// A FIFO that transmits is refused, an empty FIFO gives nothing, and otherwise the message is
/// the one that the device offers in RAM. Looking at a message leaves the device as it is; taking
/// it out writes a single byte of the control register, which increments the tail.
pub proof fn lemma_receive_achieved(fifo: FifoNumber, take: bool, memory: Seq<u8>)
    requires
        memory.len() == MEMORY_SIZE,
    ensures
        operated(Progress::Running(RxRead::start(fifo, take)), memory, 5) == (
            received(memory, fifo, take).0,
            Some(received(memory, fifo, take).1),
        ),
{
    let read = RxRead::start(fifo, take);
    let control = register(memory, SFRAddress::C1FIFOCON(fifo));
    let status = register(memory, SFRAddress::C1FIFOSTA(fifo));
    let user_address = register(memory, SFRAddress::C1FIFOUA(fifo));
    let address = ram_address(user_address) as u16;
    lemma_operated_step(read, memory, 5);
    assert(acted(memory, read.asks()) == (memory, Reply::<Seq<u8>>::Word(control)));
    if bit(control, FIFOCON_TXEN) {
        lemma_operated_finished::<RxRead<RxMessageView>>(Err(Error::FifoNotRx), memory, 4);
    } else {
        let r1 = read.at(RxStage::Status(control));
        lemma_operated_step(r1, memory, 4);
        assert(acted(memory, r1.asks()) == (memory, Reply::<Seq<u8>>::Word(status)));
        if !bit(status, FIFOSTA_TFNRFNIF) {
            lemma_operated_finished::<RxRead<RxMessageView>>(Ok(None), memory, 3);
        } else {
            let r2 = read.at(RxStage::Address(control));
            lemma_operated_step(r2, memory, 3);
            assert(acted(memory, r2.asks()) == (memory, Reply::<Seq<u8>>::Word(user_address)));
            lemma_receive_from_object(read.at(RxStage::Object(control, address)), memory);
        }
    }
}

/// The part of the read of a received message that reads the object.
proof fn lemma_receive_from_object(read: RxRead<RxMessageView>, memory: Seq<u8>)
    requires
        memory.len() == MEMORY_SIZE,
        read.stage is Object,
    ensures
        ({
            let control = read.stage->Object_0;
            let address = read.stage->Object_1;
            let size = object_size(control);
            let message = object_message(
                memory.subrange(address as int, address + size),
                bit(control, FIFOCON_RXTSEN),
                payload_bytes(control) as int,
            );
            operated(Progress::Running(read), memory, 2) == if !in_ram(address as int, size) {
                (
                    memory,
                    Some(Err::<Option<RxMessageView>, Error>(Error::InvalidRamAddress(address))),
                )
            } else if read.take {
                (
                    stored(
                        memory,
                        SFRAddress::C1FIFOCON(read.fifo).address() + 1,
                        seq![control_byte(true, false)],
                    ),
                    Some(Ok::<Option<RxMessageView>, Error>(Some(message))),
                )
            } else {
                (memory, Some(Ok::<Option<RxMessageView>, Error>(Some(message))))
            }
        }),
{
    let control = read.stage->Object_0;
    let address = read.stage->Object_1;
    let size = object_size(control);
    lemma_payload_bytes(control);
    lemma_operated_step(read, memory, 2);
    if !in_ram(address as int, size) {
        assert(acted(memory, read.asks()) == (
            memory,
            Reply::<Seq<u8>>::Failed(Error::InvalidRamAddress(address)),
        ));
        lemma_operated_finished::<RxRead<RxMessageView>>(
            Err(Error::InvalidRamAddress(address)),
            memory,
            1,
        );
    } else {
        let object = memory.subrange(address as int, address + size);
        let message = object_message(
            object,
            bit(control, FIFOCON_RXTSEN),
            payload_bytes(control) as int,
        );
        assert(acted(memory, read.asks()) == (memory, Reply::Bytes(object)));
        if read.take {
            let next = read.at(RxStage::Increment(message));
            lemma_operated_step(next, memory, 1);
            let after = acted(memory, next.asks()).0;
            lemma_operated_finished::<RxRead<RxMessageView>>(Ok(Some(message)), after, 0);
        } else {
            lemma_operated_finished::<RxRead<RxMessageView>>(Ok(Some(message)), memory, 1);
        }
    }
}

/// What the read of a transmit event is to achieve: the memory afterwards, and the result.
pub open spec fn event_received(memory: Seq<u8>, take: bool) -> (
    Seq<u8>,
    Result<Option<TxEventObject>, Error>,
) {
    let with_timestamp = bit(register(memory, SFRAddress::C1TEFCON), TEFCON_TEFTSEN);
    let address = ram_address(register(memory, SFRAddress::C1TEFUA)) as u16;
    let size = data_offset(with_timestamp);
    if !bit(register(memory, SFRAddress::C1TEFSTA), TEFSTA_TEFNEIF) {
        (memory, Ok(None))
    } else if !in_ram(address as int, size) {
        (memory, Err(Error::InvalidRamAddress(address)))
    } else {
        (
            if take {
                stored(
                    memory,
                    SFRAddress::C1TEFCON.address() + 1,
                    seq![control_byte(true, false)],
                )
            } else {
                memory
            },
            Ok(Some(event_of(memory.subrange(address as int, address + size), with_timestamp))),
        )
    }
}

/// An empty transmit event FIFO gives nothing, and otherwise the event is the one that the device
/// offers in RAM. Looking at an event leaves the device as it is; taking it out writes a single
/// byte of the control register, which increments the tail.
pub proof fn lemma_event_achieved(take: bool, memory: Seq<u8>)
    requires
        memory.len() == MEMORY_SIZE,
    ensures
        ({
            let read = EventRead { take, stage: EventStage::Status };
            let (after, result) = event_received(memory, take);
            operated(Progress::Running(read), memory, 5) == (after, Some(result))
        }),
{
    let with_timestamp = bit(register(memory, SFRAddress::C1TEFCON), TEFCON_TEFTSEN);
    let address = ram_address(register(memory, SFRAddress::C1TEFUA)) as u16;
    let size = data_offset(with_timestamp);
    let r0 = EventRead { take, stage: EventStage::Status };
    lemma_operated_step(r0, memory, 5);
    if !bit(register(memory, SFRAddress::C1TEFSTA), TEFSTA_TEFNEIF) {
        lemma_operated_finished::<EventRead>(Ok(None), memory, 4);
    } else {
        let r1 = EventRead { take, stage: EventStage::Address };
        lemma_operated_step(r1, memory, 4);
        let r2 = EventRead { take, stage: EventStage::Control(address) };
        lemma_operated_step(r2, memory, 3);
        let r3 = EventRead { take, stage: EventStage::Object(with_timestamp, address) };
        lemma_operated_step(r3, memory, 2);
        if !in_ram(address as int, size) {
            lemma_operated_finished::<EventRead>(
                Err(Error::InvalidRamAddress(address)),
                memory,
                1,
            );
        } else {
            let object = memory.subrange(address as int, address + size);
            let event = event_of(object, with_timestamp);
            assert(acted(memory, r3.asks()) == (memory, Reply::Bytes(object)));
            if take {
                let r4 = EventRead { take, stage: EventStage::Increment(event) };
                lemma_operated_step(r4, memory, 1);
                let after = acted(memory, r4.asks()).0;
                lemma_operated_finished::<EventRead>(Ok(Some(event)), after, 0);
            } else {
                lemma_operated_finished::<EventRead>(Ok(Some(event)), memory, 1);
            }
        }
    }
}

} // verus!
