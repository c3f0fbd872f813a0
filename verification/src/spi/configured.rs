//! What configuration leaves in the device's registers, setting by setting.

use vstd::prelude::*;

use crate::bits::{bit, field, with_bit, with_field};
use crate::memory::controller::fifo::FifoNumber;
use crate::memory::controller::filter::FilterNumber;
use crate::memory::layout::lemma_filter_places;
use crate::memory::{lemma_sfr_addresses, SFRAddress};
use crate::settings::{
    BitTimeConfiguration, FifoConfiguration, FifoMode, FilterConfiguration, FilterMatchMode, Id,
    IoConfiguration, OscillatorConfiguration, Pll, RxFifoConfiguration, Settings, SysClkDivider,
    TxEventFifoConfiguration, TxFifoConfiguration, TxQueueConfiguration,
};
use crate::spi::bringup::{
    configured, is_configuring, is_settled_for_all, is_whole, lemma_configurable_is_settled,
    lemma_configured, lemma_configuring_keeps_state, lemma_operated_more, lemma_register_set_up_all,
    lemma_setup_achieved, register_set_up_all, set_up, set_up_all,
};
use crate::spi::device::{register, MEMORY_SIZE};
use crate::spi::edit::Edit;
use crate::spi::effect::{
    edit_tasks, edited, edited_all, filter_edits, lemma_edit_changes_one_register,
    lemma_edits_achieved, lemma_filter_configured, lemma_filter_removed, lemma_filter_tasks,
    operated,
};
use crate::spi::readback::{
    lemma_counter_reads_back, lemma_data_bit_time_reads_back, lemma_delay_compensation_reads_back,
    lemma_event_fifo_enable_reads_back, lemma_event_fifo_reads_back, lemma_filter_mask_reads_back,
    lemma_filter_object_reads_back, lemma_interrupts_read_back, lemma_io_reads_back,
    lemma_nominal_bit_time_reads_back, lemma_oscillator_reads_back, lemma_queue_enable_reads_back,
    lemma_queue_reads_back, lemma_rx_fifo_reads_back, lemma_tx_fifo_reads_back,
};
use crate::spi::setup::{
    bit_timing_tasks, configure_tasks, io_tasks, oscillator_tasks, selected_interrupts,
    tx_event_fifo_tasks, tx_queue_tasks, SetupPlanView, SetupTask,
};
use crate::spi::task::{filter_tasks, RegisterPlanView, RegisterTask};
use crate::spi::transfer::Progress;
use crate::spi::{ConfigError, Error};

verus! {

/// A single change to a register is made, and changes no byte outside that register.
proof fn lemma_edit_outcome(edit: Edit, memory: Seq<u8>)
    requires
        memory.len() == MEMORY_SIZE,
    ensures
        ({
            let plan = RegisterPlanView::of(seq![RegisterTask::Read(edit)]);
            let (after, result) = operated(Progress::Running(plan), memory, 2);
            let first = edit.address().address();
            &&& result == Some(Ok::<(), Error>(()))
            &&& after == edited(memory, edit)
            &&& after.len() == MEMORY_SIZE
            &&& register(after, edit.address()) == edit.applied(register(memory, edit.address()))
            &&& forall|i: int|
                0 <= i < MEMORY_SIZE && !(first <= i < first + 4) ==> #[trigger] after[i]
                    == memory[i]
        }),
{
    let edits = seq![edit];
    assert(edit_tasks(edits) =~= seq![RegisterTask::Read(edit)]);
    lemma_edits_achieved(edits, memory);
    reveal_with_fuel(edited_all, 2);
    lemma_edit_changes_one_register(memory, edit, edit.address());
}

/// Configuring a FIFO that transmits leaves each of its settings in its place in the FIFO's control
/// register, whatever the register held before, and nothing else in the device changes.
pub proof fn lemma_tx_fifo_configured(
    fifo: FifoNumber,
    config: FifoConfiguration,
    tx: TxFifoConfiguration,
    memory: Seq<u8>,
)
    requires
        memory.len() == MEMORY_SIZE,
        config.mode == FifoMode::Transmit(tx),
    ensures
        ({
            let plan = RegisterPlanView::of(seq![RegisterTask::Read(Edit::Fifo(fifo, config))]);
            let (after, result) = operated(Progress::Running(plan), memory, 2);
            let first = SFRAddress::C1FIFOCON(fifo).address();
            let before = register(memory, SFRAddress::C1FIFOCON(fifo));
            let control = register(after, SFRAddress::C1FIFOCON(fifo));
            &&& result == Some(Ok::<(), Error>(()))
            &&& field(control, 24, 5) + 1 == if 1 <= config.fifo_size <= 32 {
                config.fifo_size as int
            } else {
                32
            }
            &&& field(control, 29, 3) == config.payload_size.code()
            &&& bit(control, 7)
            &&& field(control, 16, 5) == tx.priority % 32
            &&& field(control, 21, 2) == tx.retransmission_attempts.code()
            &&& bit(control, 6) <==> tx.enable_auto_rtr
            &&& bit(control, 4) <==> tx.enable_transmit_attempts_exhausted_interrupt
            &&& bit(control, 2) <==> tx.enable_fifo_empty_interrupt
            &&& bit(control, 1) <==> tx.enable_fifo_half_empty_interrupt
            &&& bit(control, 0) <==> tx.enable_fifo_not_full_interrupt
            &&& control & !0xFF7F00D7u32 == before & !0xFF7F00D7u32
            &&& after.len() == MEMORY_SIZE
            &&& forall|i: int|
                0 <= i < MEMORY_SIZE && !(first <= i < first + 4) ==> #[trigger] after[i]
                    == memory[i]
        }),
{
    lemma_edit_outcome(Edit::Fifo(fifo, config), memory);
    lemma_tx_fifo_reads_back(register(memory, SFRAddress::C1FIFOCON(fifo)), config, tx);
}

/// Configuring a FIFO that receives leaves each of its settings in its place in the FIFO's control
/// register, whatever the register held before, and nothing else in the device changes.
pub proof fn lemma_rx_fifo_configured(
    fifo: FifoNumber,
    config: FifoConfiguration,
    rx: RxFifoConfiguration,
    memory: Seq<u8>,
)
    requires
        memory.len() == MEMORY_SIZE,
        config.mode == FifoMode::Receive(rx),
    ensures
        ({
            let plan = RegisterPlanView::of(seq![RegisterTask::Read(Edit::Fifo(fifo, config))]);
            let (after, result) = operated(Progress::Running(plan), memory, 2);
            let first = SFRAddress::C1FIFOCON(fifo).address();
            let before = register(memory, SFRAddress::C1FIFOCON(fifo));
            let control = register(after, SFRAddress::C1FIFOCON(fifo));
            &&& result == Some(Ok::<(), Error>(()))
            &&& field(control, 24, 5) + 1 == if 1 <= config.fifo_size <= 32 {
                config.fifo_size as int
            } else {
                32
            }
            &&& field(control, 29, 3) == config.payload_size.code()
            &&& !bit(control, 7)
            &&& bit(control, 5) <==> rx.enable_message_timestamps
            &&& bit(control, 3) <==> rx.enable_fifo_overflow_interrupt
            &&& bit(control, 2) <==> rx.enable_fifo_full_interrupt
            &&& bit(control, 1) <==> rx.enable_fifo_half_full_interrupt
            &&& bit(control, 0) <==> rx.enable_fifo_not_empty_interrupt
            &&& control & !0xFF0000AFu32 == before & !0xFF0000AFu32
            &&& after.len() == MEMORY_SIZE
            &&& forall|i: int|
                0 <= i < MEMORY_SIZE && !(first <= i < first + 4) ==> #[trigger] after[i]
                    == memory[i]
        }),
{
    lemma_edit_outcome(Edit::Fifo(fifo, config), memory);
    lemma_rx_fifo_reads_back(register(memory, SFRAddress::C1FIFOCON(fifo)), config, rx);
}

/// Configuring a filter leaves, whatever the frames that it is for, the identifier to compare with
/// in the filter's object and the identifier bits to compare in its mask: the 11 bits of a standard
/// identifier in SID and MSID with 0 in EID and MEID, the upper 11 bits of an extended one in SID
/// and MSID and its lower 18 bits in EID and MEID. The filter is enabled and points to its FIFO.
/// The other filters are left as they are, and so are all other registers and the RAM.
#[verifier::rlimit(60)]
pub proof fn lemma_filter_set(filter: FilterNumber, config: FilterConfiguration, memory: Seq<u8>)
    requires
        memory.len() == MEMORY_SIZE,
        config.is_valid(),
    ensures
        ({
            let plan = RegisterPlanView::of(filter_tasks(filter, Some(config)));
            let (after, result) = operated(Progress::Running(plan), memory, 8);
            let address = SFRAddress::C1FLTCON(filter.control());
            let place = filter.index() % 4;
            let before = register(memory, address);
            let control = register(after, address);
            let object_before = register(memory, SFRAddress::C1FLTOBJ(filter));
            let object = register(after, SFRAddress::C1FLTOBJ(filter));
            let mask_before = register(memory, SFRAddress::C1MASK(filter));
            let mask = register(after, SFRAddress::C1MASK(filter));
            &&& result == Some(Ok::<(), Error>(()))
            &&& field(object, 0, 11) == match config.filter_bits {
                Id::Standard(standard) => standard as int,
                Id::Extended(extended) => extended as int / 0x4_0000,
            }
            &&& field(object, 11, 18) == match config.filter_bits {
                Id::Standard(_) => 0,
                Id::Extended(extended) => extended as int % 0x4_0000,
            }
            &&& bit(object, 30) <==> config.mode == FilterMatchMode::ExtendedOnly
            &&& object & !0x5FFF_FFFFu32 == object_before & !0x5FFF_FFFFu32
            &&& field(mask, 0, 11) == match config.mask_bits {
                Id::Standard(standard) => standard as int,
                Id::Extended(extended) => extended as int / 0x4_0000,
            }
            &&& field(mask, 11, 18) == match config.mask_bits {
                Id::Standard(_) => 0,
                Id::Extended(extended) => extended as int % 0x4_0000,
            }
            &&& bit(mask, 30) <==> config.mode != FilterMatchMode::Both
            &&& mask & !0x5FFF_FFFFu32 == mask_before & !0x5FFF_FFFFu32
            &&& bit(control, (8 * place + 7) as u32)
            &&& field(control, (8 * place) as u32, 5) == config.buffer_pointer.index()
            &&& place != 0 ==> field(control, 0, 8) == field(before, 0, 8)
            &&& place != 1 ==> field(control, 8, 8) == field(before, 8, 8)
            &&& place != 2 ==> field(control, 16, 8) == field(before, 16, 8)
            &&& place != 3 ==> field(control, 24, 8) == field(before, 24, 8)
            &&& forall|other: SFRAddress|
                other != address && other != SFRAddress::C1FLTOBJ(filter) && other
                    != SFRAddress::C1MASK(filter) ==> #[trigger] register(after, other) == register(
                    memory,
                    other,
                )
            &&& forall|i: int| 0x400 <= i < 0xC00 ==> #[trigger] after[i] == memory[i]
        }),
{
    let edits = filter_edits(filter, config);
    let place = (filter.index() % 4) as u8;
    let object = SFRAddress::C1FLTOBJ(filter);
    let mask = SFRAddress::C1MASK(filter);
    let control = SFRAddress::C1FLTCON(filter.control());
    lemma_filter_tasks(filter, config);
    lemma_edits_achieved(edits, memory);
    lemma_filter_configured(memory, filter, config);
    lemma_filter_object_reads_back(register(memory, object), config);
    lemma_filter_mask_reads_back(register(memory, mask), config);
    lemma_filter_places(filter, place);
    lemma_filter_places(filter, 0);
    lemma_filter_places(filter, 1);
    lemma_filter_places(filter, 2);
    lemma_filter_places(filter, 3);
    lemma_sfr_addresses(object, object);
    lemma_sfr_addresses(mask, mask);
    lemma_sfr_addresses(control, control);
    assert(edits.skip(1).skip(1).skip(1).skip(1) =~= Seq::<Edit>::empty());
    reveal_with_fuel(edited_all, 5);
}

/// Removing a filter disables it. The other filters are left as they are, and so are all other
/// registers and the RAM.
pub proof fn lemma_filter_unset(filter: FilterNumber, memory: Seq<u8>)
    requires
        memory.len() == MEMORY_SIZE,
    ensures
        ({
            let plan = RegisterPlanView::of(filter_tasks(filter, None));
            let (after, result) = operated(Progress::Running(plan), memory, 2);
            let address = SFRAddress::C1FLTCON(filter.control());
            let place = filter.index() % 4;
            let before = register(memory, address);
            let control = register(after, address);
            &&& result == Some(Ok::<(), Error>(()))
            &&& !bit(control, (8 * place + 7) as u32)
            &&& place != 0 ==> field(control, 0, 8) == field(before, 0, 8)
            &&& place != 1 ==> field(control, 8, 8) == field(before, 8, 8)
            &&& place != 2 ==> field(control, 16, 8) == field(before, 16, 8)
            &&& place != 3 ==> field(control, 24, 8) == field(before, 24, 8)
            &&& forall|other: SFRAddress|
                other != address ==> #[trigger] register(after, other) == register(memory, other)
            &&& forall|i: int| 0x400 <= i < 0xC00 ==> #[trigger] after[i] == memory[i]
        }),
{
    let edits = seq![Edit::DisableFilter(filter)];
    let control = SFRAddress::C1FLTCON(filter.control());
    assert(filter_tasks(filter, None) =~= edit_tasks(edits));
    lemma_edits_achieved(edits, memory);
    lemma_filter_removed(memory, filter);
    lemma_filter_places(filter, (filter.index() % 4) as u8);
    lemma_filter_places(filter, 0);
    lemma_filter_places(filter, 1);
    lemma_filter_places(filter, 2);
    lemma_filter_places(filter, 3);
    lemma_sfr_addresses(control, control);
    reveal_with_fuel(edited_all, 2);
}

/// Whether a task changes a register.
spec fn is_change(task: SetupTask) -> bool {
    task matches SetupTask::Change(change) && (change is Read || change is ReadIo)
}

/// Tasks that write nothing to the RAM from an address on leave it as it is there.
proof fn lemma_ram_kept(tasks: Seq<SetupTask>, memory: Seq<u8>, from: int)
    requires
        memory.len() == MEMORY_SIZE,
        from >= 0x400,
        forall|i: int|
            0 <= i < tasks.len() ==> match #[trigger] tasks[i] {
                SetupTask::Change(_) => is_change(tasks[i]),
                SetupTask::RequestMode(_, _, _) => true,
                SetupTask::AwaitPll(_) => true,
                SetupTask::WriteEcho(echo) => echo is Word && from >= 0x404,
                _ => false,
            },
    ensures
        set_up_all(memory, tasks).len() == MEMORY_SIZE,
        forall|i: int| from <= i < 0xC00 ==> #[trigger] set_up_all(memory, tasks)[i] == memory[i],
    decreases tasks.len(),
{
    if tasks.len() > 0 {
        let task = tasks[0];
        let rest = tasks.skip(1);
        match task {
            SetupTask::Change(RegisterTask::Read(edit)) => {
                lemma_sfr_addresses(edit.address(), edit.address());
            },
            _ => {},
        }
        assert forall|i: int| 0 <= i < rest.len() implies match #[trigger] rest[i] {
            SetupTask::Change(_) => is_change(rest[i]),
            SetupTask::RequestMode(_, _, _) => true,
            SetupTask::AwaitPll(_) => true,
            SetupTask::WriteEcho(echo) => echo is Word && from >= 0x404,
            _ => false,
        } by {
            assert(rest[i] == tasks[i + 1]);
        }
        lemma_ram_kept(rest, set_up(memory, task), from);
    }
}

/// Tasks that change registers wait for nothing.
proof fn lemma_changes_are_settled(tasks: Seq<SetupTask>, memory: Seq<u8>)
    requires
        forall|i: int| 0 <= i < tasks.len() ==> is_change(#[trigger] tasks[i]),
    ensures
        is_settled_for_all(memory, tasks),
    decreases tasks.len(),
{
    if tasks.len() > 0 {
        let rest = tasks.skip(1);
        assert(is_change(tasks[0]));
        assert forall|i: int| 0 <= i < rest.len() implies is_change(#[trigger] rest[i]) by {
            assert(rest[i] == tasks[i + 1]);
        }
        lemma_changes_are_settled(rest, set_up(memory, tasks[0]));
    }
}

/// Tasks that change registers succeed, do to each register what is stated for it, and leave the
/// RAM as it is.
proof fn lemma_changes_outcome(tasks: Seq<SetupTask>, memory: Seq<u8>, limit: nat)
    requires
        memory.len() == MEMORY_SIZE,
        tasks.len() > 0,
        limit >= 4 * tasks.len(),
        forall|i: int| 0 <= i < tasks.len() ==> is_change(#[trigger] tasks[i]),
    ensures
        ({
            let (after, result) = operated(
                Progress::Running(SetupPlanView::of(tasks)),
                memory,
                limit,
            );
            &&& result == Some(Ok::<(), ConfigError>(()))
            &&& forall|address: SFRAddress| #[trigger]
                register(after, address) == register_set_up_all(
                    register(memory, address),
                    address,
                    tasks,
                )
            &&& forall|i: int| 0x400 <= i < 0xC00 ==> #[trigger] after[i] == memory[i]
        }),
{
    lemma_changes_are_settled(tasks, memory);
    assert forall|i: int| 0 <= i < tasks.len() implies is_whole(#[trigger] tasks[i]) by {
        assert(is_change(tasks[i]));
    }
    lemma_setup_achieved(tasks, memory);
    lemma_operated_more::<SetupPlanView>(
        Progress::Running(SetupPlanView::of(tasks)),
        memory,
        4 * tasks.len(),
        limit,
    );
    assert forall|i: int| 0 <= i < tasks.len() implies match #[trigger] tasks[i] {
        SetupTask::Change(_) => is_change(tasks[i]),
        SetupTask::RequestMode(_, _, _) => true,
        SetupTask::AwaitPll(_) => true,
        SetupTask::WriteEcho(echo) => echo is Word && 0x400 >= 0x404,
        _ => false,
    } by {
        assert(is_change(tasks[i]));
    }
    lemma_ram_kept(tasks, memory, 0x400);
    assert forall|address: SFRAddress| #[trigger]
        register(set_up_all(memory, tasks), address) == register_set_up_all(
            register(memory, address),
            address,
            tasks,
        ) by {
        lemma_register_set_up_all(memory, tasks, address);
    }
}

/// Setting up the I/O pins leaves each setting in its own bit of IOCON, whatever the register held
/// before: TXCANOD in bit 28, SOF in bit 29, INTOD in bit 30 and XSTBYEN in bit 6. Nothing else
/// changes in the device.
pub proof fn lemma_io_configured(io: IoConfiguration, memory: Seq<u8>)
    requires
        memory.len() == MEMORY_SIZE,
    ensures
        ({
            let plan = SetupPlanView::of(io_tasks(io));
            let (after, result) = operated(Progress::Running(plan), memory, 4);
            let before = register(memory, SFRAddress::IOCON);
            let control = register(after, SFRAddress::IOCON);
            &&& result == Some(Ok::<(), ConfigError>(()))
            &&& bit(control, 6) <==> io.enable_tx_standby_pin
            &&& bit(control, 28) <==> io.tx_can_open_drain
            &&& bit(control, 29) <==> io.start_of_frame_on_clko
            &&& bit(control, 30) <==> io.interrupt_pin_open_drain
            &&& control & !0x70000040u32 == before & !0x70000040u32
            &&& forall|other: SFRAddress|
                !(other is IOCON) ==> #[trigger] register(after, other) == register(memory, other)
            &&& forall|i: int| 0x400 <= i < 0xC00 ==> #[trigger] after[i] == memory[i]
        }),
{
    lemma_changes_outcome(io_tasks(io), memory, 4);
    lemma_io_reads_back(register(memory, SFRAddress::IOCON), io);
    reveal_with_fuel(register_set_up_all, 3);
}

/// Setting up the bit timing leaves the timing of each phase in its register, and automatic delay
/// compensation with the configured offset. Nothing else changes in the device.
pub proof fn lemma_bit_timing_configured(timing: BitTimeConfiguration, memory: Seq<u8>)
    requires
        memory.len() == MEMORY_SIZE,
    ensures
        ({
            let plan = SetupPlanView::of(bit_timing_tasks(timing));
            let (after, result) = operated(Progress::Running(plan), memory, 12);
            let nominal_before = register(memory, SFRAddress::C1NBTCFG);
            let nominal = register(after, SFRAddress::C1NBTCFG);
            let data_before = register(memory, SFRAddress::C1DBTCFG);
            let data = register(after, SFRAddress::C1DBTCFG);
            let delay_before = register(memory, SFRAddress::C1TDC);
            let delay = register(after, SFRAddress::C1TDC);
            &&& result == Some(Ok::<(), ConfigError>(()))
            &&& field(nominal, 24, 8) == timing.nominal.baud_rate_prescaler
            &&& field(nominal, 16, 8) == timing.nominal.time_segment_1
            &&& field(nominal, 8, 7) == timing.nominal.time_segment_2@ % 128
            &&& field(nominal, 0, 7) == timing.nominal.synchronization_jump_width@ % 128
            &&& nominal & !0xFFFF7F7Fu32 == nominal_before & !0xFFFF7F7Fu32
            &&& field(data, 24, 8) == timing.data.baud_rate_prescaler
            &&& field(data, 16, 5) == timing.data.time_segment_1@ % 32
            &&& field(data, 8, 4) == timing.data.time_segment_2@ % 16
            &&& field(data, 0, 4) == timing.data.synchronization_jump_width@ % 16
            &&& data & !0xFF1F0F0Fu32 == data_before & !0xFF1F0F0Fu32
            &&& field(delay, 16, 2) == 2
            &&& field(delay, 8, 7) == timing.data.transmitter_delay_compensation_offset@ % 128
            &&& field(delay, 0, 6) == 0
            &&& delay & !0x00037F3Fu32 == delay_before & !0x00037F3Fu32
            &&& forall|other: SFRAddress|
                !(other is C1NBTCFG) && !(other is C1DBTCFG)
                    && !(other is C1TDC) ==> #[trigger] register(after, other) == register(
                    memory,
                    other,
                )
            &&& forall|i: int| 0x400 <= i < 0xC00 ==> #[trigger] after[i] == memory[i]
        }),
{
    lemma_changes_outcome(bit_timing_tasks(timing), memory, 12);
    lemma_nominal_bit_time_reads_back(register(memory, SFRAddress::C1NBTCFG), timing.nominal);
    lemma_data_bit_time_reads_back(register(memory, SFRAddress::C1DBTCFG), timing.data);
    lemma_delay_compensation_reads_back(register(memory, SFRAddress::C1TDC), timing.data);
    reveal_with_fuel(register_set_up_all, 5);
}

/// The transmit event FIFO is enabled in STEF, and each of its settings stands in its place in
/// C1TEFCON, whatever the registers held before; or it is disabled. Nothing else changes in the
/// device.
pub proof fn lemma_event_fifo_configured(config: TxEventFifoConfiguration, memory: Seq<u8>)
    requires
        memory.len() == MEMORY_SIZE,
    ensures
        ({
            let plan = SetupPlanView::of(tx_event_fifo_tasks(Some(config)));
            let (after, result) = operated(Progress::Running(plan), memory, 8);
            let control = register(after, SFRAddress::C1CON);
            let before = register(memory, SFRAddress::C1TEFCON);
            let changed = register(after, SFRAddress::C1TEFCON);
            &&& result == Some(Ok::<(), ConfigError>(()))
            &&& bit(control, 19)
            &&& control & !0x00080000u32 == register(memory, SFRAddress::C1CON) & !0x00080000u32
            &&& field(changed, 24, 5) + 1 == if 1 <= config.fifo_size <= 32 {
                config.fifo_size as int
            } else {
                32
            }
            &&& bit(changed, 5) <==> config.enable_timestamps
            &&& bit(changed, 3) <==> config.enable_fifo_overflow_interrupt
            &&& bit(changed, 2) <==> config.enable_fifo_full_interrupt
            &&& bit(changed, 1) <==> config.enable_fifo_half_full_interrupt
            &&& bit(changed, 0) <==> config.enable_fifo_not_empty_interrupt
            &&& changed & !0x1F00002Fu32 == before & !0x1F00002Fu32
            &&& forall|other: SFRAddress|
                !(other is C1CON)
                    && !(other is C1TEFCON) ==> #[trigger] register(after, other) == register(
                    memory,
                    other,
                )
            &&& forall|i: int| 0x400 <= i < 0xC00 ==> #[trigger] after[i] == memory[i]
        }),
        ({
            let plan = SetupPlanView::of(tx_event_fifo_tasks(None));
            let (after, result) = operated(Progress::Running(plan), memory, 4);
            let control = register(after, SFRAddress::C1CON);
            &&& result == Some(Ok::<(), ConfigError>(()))
            &&& !bit(control, 19)
            &&& control & !0x00080000u32 == register(memory, SFRAddress::C1CON) & !0x00080000u32
            &&& forall|other: SFRAddress|
                !(other is C1CON) ==> #[trigger] register(after, other) == register(memory, other)
            &&& forall|i: int| 0x400 <= i < 0xC00 ==> #[trigger] after[i] == memory[i]
        }),
{
    lemma_changes_outcome(tx_event_fifo_tasks(Some(config)), memory, 8);
    lemma_changes_outcome(tx_event_fifo_tasks(None), memory, 4);
    lemma_event_fifo_enable_reads_back(register(memory, SFRAddress::C1CON), true);
    lemma_event_fifo_enable_reads_back(register(memory, SFRAddress::C1CON), false);
    lemma_event_fifo_reads_back(register(memory, SFRAddress::C1TEFCON), config);
    reveal_with_fuel(register_set_up_all, 4);
}

/// The transmit queue is enabled in TXQEN, and each of its settings stands in its place in
/// C1TXQCON, whatever the registers held before; or it is disabled. Nothing else changes in the
/// device.
pub proof fn lemma_queue_configured(config: TxQueueConfiguration, memory: Seq<u8>)
    requires
        memory.len() == MEMORY_SIZE,
    ensures
        ({
            let plan = SetupPlanView::of(tx_queue_tasks(Some(config)));
            let (after, result) = operated(Progress::Running(plan), memory, 8);
            let control = register(after, SFRAddress::C1CON);
            let before = register(memory, SFRAddress::C1TXQCON);
            let changed = register(after, SFRAddress::C1TXQCON);
            &&& result == Some(Ok::<(), ConfigError>(()))
            &&& bit(control, 20)
            &&& control & !0x00100000u32 == register(memory, SFRAddress::C1CON) & !0x00100000u32
            &&& field(changed, 21, 2) == config.retransmission_attempts.code()
            &&& field(changed, 16, 5) == config.message_priority % 32
            &&& field(changed, 24, 5) + 1 == if 1 <= config.fifo_size <= 32 {
                config.fifo_size as int
            } else {
                32
            }
            &&& field(changed, 29, 3) == config.payload_size.code()
            &&& bit(changed, 4) <==> config.enable_transmit_attempts_exhausted_interrupt
            &&& bit(changed, 2) <==> config.enable_queue_empty_interrupt
            &&& bit(changed, 0) <==> config.enable_queue_not_full_interrupt
            &&& changed & !0xFF7F0015u32 == before & !0xFF7F0015u32
            &&& forall|other: SFRAddress|
                !(other is C1CON)
                    && !(other is C1TXQCON) ==> #[trigger] register(after, other) == register(
                    memory,
                    other,
                )
            &&& forall|i: int| 0x400 <= i < 0xC00 ==> #[trigger] after[i] == memory[i]
        }),
        ({
            let plan = SetupPlanView::of(tx_queue_tasks(None));
            let (after, result) = operated(Progress::Running(plan), memory, 4);
            let control = register(after, SFRAddress::C1CON);
            &&& result == Some(Ok::<(), ConfigError>(()))
            &&& !bit(control, 20)
            &&& control & !0x00100000u32 == register(memory, SFRAddress::C1CON) & !0x00100000u32
            &&& forall|other: SFRAddress|
                !(other is C1CON) ==> #[trigger] register(after, other) == register(memory, other)
            &&& forall|i: int| 0x400 <= i < 0xC00 ==> #[trigger] after[i] == memory[i]
        }),
{
    lemma_changes_outcome(tx_queue_tasks(Some(config)), memory, 8);
    lemma_changes_outcome(tx_queue_tasks(None), memory, 4);
    lemma_queue_enable_reads_back(register(memory, SFRAddress::C1CON), true);
    lemma_queue_enable_reads_back(register(memory, SFRAddress::C1CON), false);
    lemma_queue_reads_back(register(memory, SFRAddress::C1TXQCON), config);
    reveal_with_fuel(register_set_up_all, 4);
}

/// Setting up the system clock leaves the PLL and the divider as configured in OSC and the clock
/// enabled, and succeeds if the PLL has locked or is not used. Nothing else changes in the device.
pub proof fn lemma_oscillator_configured(oscillator: OscillatorConfiguration, memory: Seq<u8>)
    requires
        memory.len() == MEMORY_SIZE,
        oscillator.pll == Pll::On ==> bit(register(memory, SFRAddress::OSC), 8),
    ensures
        ({
            let plan = SetupPlanView::of(oscillator_tasks(oscillator));
            let (after, result) = operated(Progress::Running(plan), memory, 8);
            let before = register(memory, SFRAddress::OSC);
            let control = register(after, SFRAddress::OSC);
            &&& result == Some(Ok::<(), ConfigError>(()))
            &&& bit(control, 0) <==> oscillator.pll == Pll::On
            &&& bit(control, 4) <==> oscillator.divider == SysClkDivider::DivByTwo
            &&& !bit(control, 2)
            &&& control & !0x00000015u32 == before & !0x00000015u32
            &&& forall|other: SFRAddress|
                !(other is OSC) ==> #[trigger] register(after, other) == register(memory, other)
            &&& forall|i: int| 0x400 <= i < 0xC00 ==> #[trigger] after[i] == memory[i]
        }),
{
    let tasks = oscillator_tasks(oscillator);
    let raw = register(memory, SFRAddress::OSC);
    let edit = Edit::Oscillator(oscillator);
    lemma_oscillator_reads_back(raw, oscillator);
    lemma_configuring_keeps_state(raw, SetupTask::edit(edit), true);
    lemma_edit_changes_one_register(memory, edit, SFRAddress::OSC);
    assert(is_settled_for_all(memory, tasks)) by {
        reveal_with_fuel(is_settled_for_all, 4);
    }
    assert forall|i: int| 0 <= i < tasks.len() implies is_whole(#[trigger] tasks[i]) by {}
    lemma_setup_achieved(tasks, memory);
    lemma_operated_more::<SetupPlanView>(
        Progress::Running(SetupPlanView::of(tasks)),
        memory,
        4 * tasks.len(),
        8,
    );
    lemma_ram_kept(tasks, memory, 0x400);
    reveal_with_fuel(register_set_up_all, 4);
    assert forall|other: SFRAddress| true implies #[trigger] register(
        set_up_all(memory, tasks),
        other,
    ) == register_set_up_all(register(memory, other), other, tasks) by {
        lemma_register_set_up_all(memory, tasks, other);
    }
}

/// The control register of a configured controller: Configuration mode is requested, the transmit
/// event FIFO and the transmit queue are enabled if they have settings, retransmission limits are
/// obeyed, the number of data bits to compare is set unless it is 0 or absent, and everything else
/// is as it was.
#[verifier::rlimit(40)]
proof fn lemma_configured_control(raw: u32, settings: Settings)
    ensures
        ({
            let changed = configured(raw, SFRAddress::C1CON, settings);
            let matched = match settings.data_bits_to_match {
                Some(count) => count,
                None => 0,
            };
            &&& field(changed, 24, 3) == 4
            &&& bit(changed, 19) <==> settings.tx_event_fifo is Some
            &&& bit(changed, 20) <==> settings.tx_queue is Some
            &&& bit(changed, 16)
            &&& matched != 0 ==> field(changed, 0, 5) == matched % 32
            &&& matched == 0 ==> field(changed, 0, 5) == field(raw, 0, 5)
            &&& changed & !0x0719001Fu32 == raw & !0x0719001Fu32
        }),
{
    let events = settings.tx_event_fifo is Some;
    let queue = settings.tx_queue is Some;
    let matched = match settings.data_bits_to_match {
        Some(count) => count as u32,
        None => 0u32,
    };
    let r1 = with_field(raw, 24, 3, 4);
    let r2 = with_bit(r1, 19, events);
    let r3 = with_bit(r2, 20, queue);
    let r4 = if matched == 0 {
        r3
    } else {
        with_field(r3, 0, 5, matched)
    };
    let changed = with_bit(r4, 16, true);
    assert(configured(raw, SFRAddress::C1CON, settings) == changed);
    assert(field(changed, 24, 3) == 4 && (field(changed, 19, 1) == 1) == events && (field(
        changed,
        20,
        1,
    ) == 1) == queue && field(changed, 16, 1) == 1 && (matched != 0 ==> field(changed, 0, 5)
        == matched % 32) && (matched == 0 ==> field(changed, 0, 5) == field(raw, 0, 5)) && changed
        & !0x0719001Fu32 == raw & !0x0719001Fu32) by (bit_vector)
        requires
            r1 == with_field(raw, 24, 3, 4),
            r2 == with_bit(r1, 19, events),
            r3 == with_bit(r2, 20, queue),
            r4 == if matched == 0 {
                r3
            } else {
                with_field(r3, 0, 5, matched)
            },
            changed == with_bit(r4, 16, true),
    ;
}

/// The outcome of a configuration, register by register.
proof fn lemma_configured_outcome(settings: Settings, memory: Seq<u8>, limit: nat)
    requires
        memory.len() == MEMORY_SIZE,
        field(register(memory, SFRAddress::C1CON), 21, 3) == 4,
        settings.oscillator.pll == Pll::On ==> bit(register(memory, SFRAddress::OSC), 8),
        limit >= 4 * configure_tasks(settings).len(),
    ensures
        ({
            let plan = SetupPlanView::of(configure_tasks(settings));
            let (after, result) = operated(Progress::Running(plan), memory, limit);
            &&& result == Some(Ok::<(), ConfigError>(()))
            &&& forall|address: SFRAddress| #[trigger]
                register(after, address) == configured(
                    register(memory, address),
                    address,
                    settings,
                )
            &&& forall|i: int| 0x404 <= i < 0xC00 ==> #[trigger] after[i] == memory[i]
        }),
{
    let tasks = configure_tasks(settings);
    let uses_pll = settings.oscillator.pll == Pll::On;
    lemma_configured(settings, memory);
    lemma_operated_more::<SetupPlanView>(
        Progress::Running(SetupPlanView::of(tasks)),
        memory,
        4 * tasks.len(),
        limit,
    );
    assert forall|i: int| 0 <= i < tasks.len() implies is_configuring(
        #[trigger] tasks[i],
        uses_pll,
    ) by {}
    assert forall|i: int| 0 <= i < tasks.len() implies is_whole(#[trigger] tasks[i]) by {
        assert(is_configuring(tasks[i], uses_pll));
    }
    lemma_configurable_is_settled(memory, tasks, uses_pll);
    lemma_setup_achieved(tasks, memory);
    assert forall|i: int| 0 <= i < tasks.len() implies match #[trigger] tasks[i] {
        SetupTask::Change(_) => is_change(tasks[i]),
        SetupTask::RequestMode(_, _, _) => true,
        SetupTask::AwaitPll(_) => true,
        SetupTask::WriteEcho(echo) => echo is Word && 0x404 >= 0x404,
        _ => false,
    } by {
        assert(is_configuring(tasks[i], uses_pll));
    }
    lemma_ram_kept(tasks, memory, 0x404);
}

/// A configuration takes at most 47 tasks.
proof fn lemma_configuration_size(settings: Settings)
    ensures
        configure_tasks(settings).len() <= 47,
{
}

/// A device in Configuration mode, with a PLL that has locked if it is used, is configured
/// successfully, and afterwards its control, clock, pin and bit timing registers hold each setting
/// in its place, whatever they held before.
#[verifier::rlimit(60)]
pub proof fn lemma_device_configured(settings: Settings, memory: Seq<u8>)
    requires
        memory.len() == MEMORY_SIZE,
        field(register(memory, SFRAddress::C1CON), 21, 3) == 4,
        settings.oscillator.pll == Pll::On ==> bit(register(memory, SFRAddress::OSC), 8),
    ensures
        ({
            let plan = SetupPlanView::of(configure_tasks(settings));
            let (after, result) = operated(Progress::Running(plan), memory, 188);
            let oscillator = settings.oscillator;
            let io = settings.io_configuration;
            let timing = settings.bit_time_configuration;
            let matched = match settings.data_bits_to_match {
                Some(count) => count,
                None => 0,
            };
            let control_before = register(memory, SFRAddress::C1CON);
            let control = register(after, SFRAddress::C1CON);
            let clock_before = register(memory, SFRAddress::OSC);
            let clock = register(after, SFRAddress::OSC);
            let pins_before = register(memory, SFRAddress::IOCON);
            let pins = register(after, SFRAddress::IOCON);
            let nominal_before = register(memory, SFRAddress::C1NBTCFG);
            let nominal = register(after, SFRAddress::C1NBTCFG);
            let data_before = register(memory, SFRAddress::C1DBTCFG);
            let data = register(after, SFRAddress::C1DBTCFG);
            let delay_before = register(memory, SFRAddress::C1TDC);
            let delay = register(after, SFRAddress::C1TDC);
            &&& result == Some(Ok::<(), ConfigError>(()))
            &&& field(control, 24, 3) == 4
            &&& bit(control, 19) <==> settings.tx_event_fifo is Some
            &&& bit(control, 20) <==> settings.tx_queue is Some
            &&& bit(control, 16)
            &&& matched != 0 ==> field(control, 0, 5) == matched % 32
            &&& matched == 0 ==> field(control, 0, 5) == field(control_before, 0, 5)
            &&& control & !0x0719001Fu32 == control_before & !0x0719001Fu32
            &&& bit(clock, 0) <==> oscillator.pll == Pll::On
            &&& bit(clock, 4) <==> oscillator.divider == SysClkDivider::DivByTwo
            &&& !bit(clock, 2)
            &&& clock & !0x00000015u32 == clock_before & !0x00000015u32
            &&& bit(pins, 6) <==> io.enable_tx_standby_pin
            &&& bit(pins, 28) <==> io.tx_can_open_drain
            &&& bit(pins, 29) <==> io.start_of_frame_on_clko
            &&& bit(pins, 30) <==> io.interrupt_pin_open_drain
            &&& pins & !0x70000040u32 == pins_before & !0x70000040u32
            &&& field(nominal, 24, 8) == timing.nominal.baud_rate_prescaler
            &&& field(nominal, 16, 8) == timing.nominal.time_segment_1
            &&& field(nominal, 8, 7) == timing.nominal.time_segment_2@ % 128
            &&& field(nominal, 0, 7) == timing.nominal.synchronization_jump_width@ % 128
            &&& nominal & !0xFFFF7F7Fu32 == nominal_before & !0xFFFF7F7Fu32
            &&& field(data, 24, 8) == timing.data.baud_rate_prescaler
            &&& field(data, 16, 5) == timing.data.time_segment_1@ % 32
            &&& field(data, 8, 4) == timing.data.time_segment_2@ % 16
            &&& field(data, 0, 4) == timing.data.synchronization_jump_width@ % 16
            &&& data & !0xFF1F0F0Fu32 == data_before & !0xFF1F0F0Fu32
            &&& field(delay, 16, 2) == 2
            &&& field(delay, 8, 7) == timing.data.transmitter_delay_compensation_offset@ % 128
            &&& field(delay, 0, 6) == 0
            &&& delay & !0x00037F3Fu32 == delay_before & !0x00037F3Fu32
        }),
{
    let timing = settings.bit_time_configuration;
    lemma_configuration_size(settings);
    lemma_configured_outcome(settings, memory, 188);
    lemma_configured_control(register(memory, SFRAddress::C1CON), settings);
    lemma_oscillator_reads_back(register(memory, SFRAddress::OSC), settings.oscillator);
    lemma_io_reads_back(register(memory, SFRAddress::IOCON), settings.io_configuration);
    lemma_nominal_bit_time_reads_back(register(memory, SFRAddress::C1NBTCFG), timing.nominal);
    lemma_data_bit_time_reads_back(register(memory, SFRAddress::C1DBTCFG), timing.data);
    lemma_delay_compensation_reads_back(register(memory, SFRAddress::C1TDC), timing.data);
}

/// A device in Configuration mode, with a PLL that has locked if it is used, is configured so that
/// the transmit event FIFO, the transmit queue and the time base counter have their settings, each
/// in its place, or are left as they are if there are none for them. The interrupts of reception
/// and transmission are enabled, and those that the settings ask for. All registers that the
/// settings do not concern stay as they are, and so does the RAM behind its first word.
#[verifier::rlimit(60)]
pub proof fn lemma_buffers_configured(settings: Settings, memory: Seq<u8>)
    requires
        memory.len() == MEMORY_SIZE,
        field(register(memory, SFRAddress::C1CON), 21, 3) == 4,
        settings.oscillator.pll == Pll::On ==> bit(register(memory, SFRAddress::OSC), 8),
    ensures
        ({
            let plan = SetupPlanView::of(configure_tasks(settings));
            let (after, result) = operated(Progress::Running(plan), memory, 188);
            let before = register(memory, SFRAddress::C1TEFCON);
            let changed = register(after, SFRAddress::C1TEFCON);
            match settings.tx_event_fifo {
                None => changed == before,
                Some(config) => {
                    &&& field(changed, 24, 5) + 1 == if 1 <= config.fifo_size <= 32 {
                        config.fifo_size as int
                    } else {
                        32
                    }
                    &&& bit(changed, 5) <==> config.enable_timestamps
                    &&& bit(changed, 3) <==> config.enable_fifo_overflow_interrupt
                    &&& bit(changed, 2) <==> config.enable_fifo_full_interrupt
                    &&& bit(changed, 1) <==> config.enable_fifo_half_full_interrupt
                    &&& bit(changed, 0) <==> config.enable_fifo_not_empty_interrupt
                    &&& changed & !0x1F00002Fu32 == before & !0x1F00002Fu32
                },
            }
        }),
        ({
            let plan = SetupPlanView::of(configure_tasks(settings));
            let (after, result) = operated(Progress::Running(plan), memory, 188);
            let before = register(memory, SFRAddress::C1TXQCON);
            let changed = register(after, SFRAddress::C1TXQCON);
            match settings.tx_queue {
                None => changed == before,
                Some(config) => {
                    &&& field(changed, 21, 2) == config.retransmission_attempts.code()
                    &&& field(changed, 16, 5) == config.message_priority % 32
                    &&& field(changed, 24, 5) + 1 == if 1 <= config.fifo_size <= 32 {
                        config.fifo_size as int
                    } else {
                        32
                    }
                    &&& field(changed, 29, 3) == config.payload_size.code()
                    &&& bit(changed, 4) <==> config.enable_transmit_attempts_exhausted_interrupt
                    &&& bit(changed, 2) <==> config.enable_queue_empty_interrupt
                    &&& bit(changed, 0) <==> config.enable_queue_not_full_interrupt
                    &&& changed & !0xFF7F0015u32 == before & !0xFF7F0015u32
                },
            }
        }),
        ({
            let plan = SetupPlanView::of(configure_tasks(settings));
            let (after, result) = operated(Progress::Running(plan), memory, 188);
            let before = register(memory, SFRAddress::C1TSCON);
            let changed = register(after, SFRAddress::C1TSCON);
            match settings.time_base_counter {
                None => changed == before,
                Some(counter) => {
                    let prescaler = counter.prescaler;
                    &&& field(changed, 0, 10) == if prescaler <= 1023 {
                        prescaler as int
                    } else {
                        1023
                    }
                    &&& bit(changed, 16)
                    &&& changed & !0x000103FFu32 == before & !0x000103FFu32
                },
            }
        }),
        ({
            let plan = SetupPlanView::of(configure_tasks(settings));
            let (after, result) = operated(Progress::Running(plan), memory, 188);
            let overflow = settings.time_base_counter matches Some(counter)
                && counter.overflow_interrupt;
            let before = register(memory, SFRAddress::C1INT);
            let changed = register(after, SFRAddress::C1INT);
            &&& bit(changed, 17)
            &&& bit(changed, 16)
            &&& bit(changed, 31) <==> (settings.enable_can_error_interrupts || bit(before, 31))
            &&& bit(changed, 29) <==> (settings.enable_can_error_interrupts || bit(before, 29))
            &&& bit(changed, 28) <==> (settings.enable_can_error_interrupts || bit(before, 28))
            &&& bit(changed, 25) <==> (settings.enable_spi_error_interrupt || bit(before, 25))
            &&& bit(changed, 24) <==> (settings.enable_ecc_error_interrupt || bit(before, 24))
            &&& bit(changed, 18) <==> (overflow || bit(before, 18))
            &&& changed & !0xB3070000u32 == before & !0xB3070000u32
        }),
        ({
            let plan = SetupPlanView::of(configure_tasks(settings));
            let (after, result) = operated(Progress::Running(plan), memory, 188);
            &&& forall|other: SFRAddress|
                match other {
                    SFRAddress::C1CON
                    | SFRAddress::OSC
                    | SFRAddress::IOCON
                    | SFRAddress::C1NBTCFG
                    | SFRAddress::C1DBTCFG
                    | SFRAddress::C1TDC
                    | SFRAddress::C1TEFCON
                    | SFRAddress::C1TXQCON
                    | SFRAddress::C1TSCON
                    | SFRAddress::C1INT => true,
                    _ => #[trigger] register(after, other) == register(memory, other),
                }
            &&& forall|i: int| 0x404 <= i < 0xC00 ==> #[trigger] after[i] == memory[i]
        }),
{
    lemma_configuration_size(settings);
    lemma_configured_outcome(settings, memory, 188);
    if let Some(config) = settings.tx_event_fifo {
        lemma_event_fifo_reads_back(register(memory, SFRAddress::C1TEFCON), config);
    }
    if let Some(config) = settings.tx_queue {
        lemma_queue_reads_back(register(memory, SFRAddress::C1TXQCON), config);
    }
    if let Some(counter) = settings.time_base_counter {
        lemma_counter_reads_back(register(memory, SFRAddress::C1TSCON), counter.prescaler);
    }
    lemma_interrupts_read_back(
        register(memory, SFRAddress::C1INT),
        selected_interrupts(settings),
    );
}

} // verus!
