//! What registers say after they have been changed: each setting can be read back from its place,
//! and everything else is as it was.

use vstd::prelude::*;

use crate::bits::{bit, field, with_bit, with_field};
use crate::memory::controller::configuration::OperationMode;
use crate::memory::controller::fifo::fsize;
use crate::settings::{
    DataBitTimeConfiguration, FifoConfiguration, FifoMode, FilterConfiguration, FilterMatchMode,
    Id, IoConfiguration, NominalBitTimeConfiguration, OscillatorConfiguration, Pll,
    RxFifoConfiguration, SysClkDivider, TxEventFifoConfiguration, TxFifoConfiguration,
    TxQueueConfiguration,
};
use crate::spi::edit::{
    with_fifo, with_filter_mask, with_filter_object, with_identifier, with_io, Edit,
    InterruptSelection,
};

verus! {

/// A mode is requested in REQOP, and nothing else changes.
pub proof fn lemma_mode_request_reads_back(raw: u32, mode: OperationMode)
    ensures
        ({
            let changed = Edit::RequestMode(mode).applied(raw);
            &&& field(changed, 24, 3) == mode.code()
            &&& changed & !0x07000000u32 == raw & !0x07000000u32
        }),
{
    let code = mode.code();
    let changed = with_field(raw, 24, 3, code);
    assert(Edit::RequestMode(mode).applied(raw) == changed);
    assert(field(changed, 24, 3) == code
        && changed & !0x07000000u32 == raw & !0x07000000u32) by (bit_vector)
        requires
            changed == with_field(raw, 24, 3, code),
            code < 8,
    ;
}

/// The PLL and the divider are set as configured, the clock is enabled, and nothing else changes.
pub proof fn lemma_oscillator_reads_back(raw: u32, oscillator: OscillatorConfiguration)
    ensures
        ({
            let changed = Edit::Oscillator(oscillator).applied(raw);
            &&& bit(changed, 0) <==> oscillator.pll == Pll::On
            &&& bit(changed, 4) <==> oscillator.divider == SysClkDivider::DivByTwo
            &&& !bit(changed, 2)
            &&& changed & !0x00000015u32 == raw & !0x00000015u32
        }),
{
    let pll = oscillator.pll == Pll::On;
    let divided = oscillator.divider == SysClkDivider::DivByTwo;
    let r1 = with_bit(raw, 0, pll);
    let r2 = with_bit(r1, 4, divided);
    let changed = with_bit(r2, 2, false);
    assert(Edit::Oscillator(oscillator).applied(raw) == changed);
    assert((field(changed, 0, 1) == 1) == pll && (field(changed, 4, 1) == 1) == divided
        && field(changed, 2, 1) != 1
        && changed & !0x00000015u32 == raw & !0x00000015u32) by (bit_vector)
        requires
            r1 == with_bit(raw, 0, pll),
            r2 == with_bit(r1, 4, divided),
            changed == with_bit(r2, 2, false),
    ;
}

/// Each pin setting stands in its own bit of IOCON, and nothing else changes.
pub proof fn lemma_io_reads_back(raw: u32, io: IoConfiguration)
    ensures
        ({
            let changed = with_io(raw, io);
            &&& bit(changed, 6) <==> io.enable_tx_standby_pin
            &&& bit(changed, 28) <==> io.tx_can_open_drain
            &&& bit(changed, 29) <==> io.start_of_frame_on_clko
            &&& bit(changed, 30) <==> io.interrupt_pin_open_drain
            &&& changed & !0x70000040u32 == raw & !0x70000040u32
        }),
{
    let standby = io.enable_tx_standby_pin;
    let open_tx = io.tx_can_open_drain;
    let frame = io.start_of_frame_on_clko;
    let open_int = io.interrupt_pin_open_drain;
    let r1 = with_bit(raw, 6, standby);
    let r2 = with_bit(r1, 28, open_tx);
    let r3 = with_bit(r2, 29, frame);
    let changed = with_bit(r3, 30, open_int);
    assert(with_io(raw, io) == changed);
    assert((field(changed, 6, 1) == 1) == standby && (field(changed, 28, 1) == 1) == open_tx
        && (field(changed, 29, 1) == 1) == frame && (field(changed, 30, 1) == 1) == open_int
        && changed & !0x70000040u32 == raw & !0x70000040u32) by (bit_vector)
        requires
            r1 == with_bit(raw, 6, standby),
            r2 == with_bit(r1, 28, open_tx),
            r3 == with_bit(r2, 29, frame),
            changed == with_bit(r3, 30, open_int),
    ;
}

/// The timing of the arbitration phase stands in the fields of C1NBTCFG, and nothing else changes.
pub proof fn lemma_nominal_bit_time_reads_back(raw: u32, timing: NominalBitTimeConfiguration)
    ensures
        ({
            let changed = Edit::NominalBitTime(timing).applied(raw);
            &&& field(changed, 24, 8) == timing.baud_rate_prescaler
            &&& field(changed, 16, 8) == timing.time_segment_1
            &&& field(changed, 8, 7) == timing.time_segment_2@ % 128
            &&& field(changed, 0, 7) == timing.synchronization_jump_width@ % 128
            &&& changed & !0xFFFF7F7Fu32 == raw & !0xFFFF7F7Fu32
        }),
{
    let brp = timing.baud_rate_prescaler as u32;
    let seg1 = timing.time_segment_1 as u32;
    let seg2 = timing.time_segment_2@ as u32;
    let sjw = timing.synchronization_jump_width@ as u32;
    let r1 = with_field(raw, 24, 8, brp);
    let r2 = with_field(r1, 16, 8, seg1);
    let r3 = with_field(r2, 8, 7, seg2);
    let changed = with_field(r3, 0, 7, sjw);
    assert(Edit::NominalBitTime(timing).applied(raw) == changed);
    assert(field(changed, 24, 8) == brp && field(changed, 16, 8) == seg1
        && field(changed, 8, 7) == seg2 % 128 && field(changed, 0, 7) == sjw % 128
        && changed & !0xFFFF7F7Fu32 == raw & !0xFFFF7F7Fu32) by (bit_vector)
        requires
            r1 == with_field(raw, 24, 8, brp),
            r2 == with_field(r1, 16, 8, seg1),
            r3 == with_field(r2, 8, 7, seg2),
            changed == with_field(r3, 0, 7, sjw),
            brp < 256,
            seg1 < 256,
    ;
}

/// The timing of the data phase stands in the fields of C1DBTCFG, and nothing else changes.
pub proof fn lemma_data_bit_time_reads_back(raw: u32, timing: DataBitTimeConfiguration)
    ensures
        ({
            let changed = Edit::DataBitTime(timing).applied(raw);
            &&& field(changed, 24, 8) == timing.baud_rate_prescaler
            &&& field(changed, 16, 5) == timing.time_segment_1@ % 32
            &&& field(changed, 8, 4) == timing.time_segment_2@ % 16
            &&& field(changed, 0, 4) == timing.synchronization_jump_width@ % 16
            &&& changed & !0xFF1F0F0Fu32 == raw & !0xFF1F0F0Fu32
        }),
{
    let brp = timing.baud_rate_prescaler as u32;
    let seg1 = timing.time_segment_1@ as u32;
    let seg2 = timing.time_segment_2@ as u32;
    let sjw = timing.synchronization_jump_width@ as u32;
    let r1 = with_field(raw, 24, 8, brp);
    let r2 = with_field(r1, 16, 5, seg1);
    let r3 = with_field(r2, 8, 4, seg2);
    let changed = with_field(r3, 0, 4, sjw);
    assert(Edit::DataBitTime(timing).applied(raw) == changed);
    assert(field(changed, 24, 8) == brp && field(changed, 16, 5) == seg1 % 32
        && field(changed, 8, 4) == seg2 % 16 && field(changed, 0, 4) == sjw % 16
        && changed & !0xFF1F0F0Fu32 == raw & !0xFF1F0F0Fu32) by (bit_vector)
        requires
            r1 == with_field(raw, 24, 8, brp),
            r2 == with_field(r1, 16, 5, seg1),
            r3 == with_field(r2, 8, 4, seg2),
            changed == with_field(r3, 0, 4, sjw),
            brp < 256,
    ;
}

/// The delay is compensated automatically with the configured offset, the measured value starts at
/// 0, and nothing else changes.
pub proof fn lemma_delay_compensation_reads_back(raw: u32, timing: DataBitTimeConfiguration)
    ensures
        ({
            let changed = Edit::DelayCompensation(timing).applied(raw);
            &&& field(changed, 16, 2) == 2
            &&& field(changed, 8, 7) == timing.transmitter_delay_compensation_offset@ % 128
            &&& field(changed, 0, 6) == 0
            &&& changed & !0x00037F3Fu32 == raw & !0x00037F3Fu32
        }),
{
    let offset = timing.transmitter_delay_compensation_offset@ as u32;
    let r1 = with_field(raw, 16, 2, 2);
    let r2 = with_field(r1, 8, 7, offset);
    let changed = with_field(r2, 0, 6, 0);
    assert(Edit::DelayCompensation(timing).applied(raw) == changed);
    assert(field(changed, 16, 2) == 2 && field(changed, 8, 7) == offset % 128
        && field(changed, 0, 6) == 0
        && changed & !0x00037F3Fu32 == raw & !0x00037F3Fu32) by (bit_vector)
        requires
            r1 == with_field(raw, 16, 2, 2),
            r2 == with_field(r1, 8, 7, offset),
            changed == with_field(r2, 0, 6, 0),
    ;
}

/// The transmit event FIFO is enabled or disabled in STEF, and nothing else changes.
pub proof fn lemma_event_fifo_enable_reads_back(raw: u32, enabled: bool)
    ensures
        ({
            let changed = Edit::EnableTxEventFifo(enabled).applied(raw);
            &&& bit(changed, 19) <==> enabled
            &&& changed & !0x00080000u32 == raw & !0x00080000u32
        }),
{
    let changed = with_bit(raw, 19, enabled);
    assert(Edit::EnableTxEventFifo(enabled).applied(raw) == changed);
    assert((field(changed, 19, 1) == 1) == enabled
        && changed & !0x00080000u32 == raw & !0x00080000u32) by (bit_vector)
        requires
            changed == with_bit(raw, 19, enabled),
    ;
}

/// The transmit queue is enabled or disabled in TXQEN, and nothing else changes.
pub proof fn lemma_queue_enable_reads_back(raw: u32, enabled: bool)
    ensures
        ({
            let changed = Edit::EnableTxQueue(enabled).applied(raw);
            &&& bit(changed, 20) <==> enabled
            &&& changed & !0x00100000u32 == raw & !0x00100000u32
        }),
{
    let changed = with_bit(raw, 20, enabled);
    assert(Edit::EnableTxQueue(enabled).applied(raw) == changed);
    assert((field(changed, 20, 1) == 1) == enabled
        && changed & !0x00100000u32 == raw & !0x00100000u32) by (bit_vector)
        requires
            changed == with_bit(raw, 20, enabled),
    ;
}

/// The settings of the transmit event FIFO stand in C1TEFCON, and nothing else changes.
pub proof fn lemma_event_fifo_reads_back(raw: u32, config: TxEventFifoConfiguration)
    ensures
        ({
            let changed = Edit::TxEventFifo(config).applied(raw);
            &&& field(changed, 24, 5) + 1 == if 1 <= config.fifo_size <= 32 {
                config.fifo_size as int
            } else {
                32
            }
            &&& bit(changed, 5) <==> config.enable_timestamps
            &&& bit(changed, 3) <==> config.enable_fifo_overflow_interrupt
            &&& bit(changed, 2) <==> config.enable_fifo_full_interrupt
            &&& bit(changed, 1) <==> config.enable_fifo_half_full_interrupt
            &&& bit(changed, 0) <==> config.enable_fifo_not_empty_interrupt
            &&& changed & !0x1F00002Fu32 == raw & !0x1F00002Fu32
        }),
{
    let size = fsize(config.fifo_size);
    let timestamps = config.enable_timestamps;
    let overflow = config.enable_fifo_overflow_interrupt;
    let full = config.enable_fifo_full_interrupt;
    let half = config.enable_fifo_half_full_interrupt;
    let not_empty = config.enable_fifo_not_empty_interrupt;
    let r1 = with_field(raw, 24, 5, size);
    let r2 = with_bit(r1, 5, timestamps);
    let r3 = with_bit(r2, 3, overflow);
    let r4 = with_bit(r3, 2, full);
    let r5 = with_bit(r4, 1, half);
    let changed = with_bit(r5, 0, not_empty);
    assert(Edit::TxEventFifo(config).applied(raw) == changed);
    assert(field(changed, 24, 5) == size && (field(changed, 5, 1) == 1) == timestamps
        && (field(changed, 3, 1) == 1) == overflow && (field(changed, 2, 1) == 1) == full
        && (field(changed, 1, 1) == 1) == half && (field(changed, 0, 1) == 1) == not_empty
        && changed & !0x1F00002Fu32 == raw & !0x1F00002Fu32) by (bit_vector)
        requires
            r1 == with_field(raw, 24, 5, size),
            r2 == with_bit(r1, 5, timestamps),
            r3 == with_bit(r2, 3, overflow),
            r4 == with_bit(r3, 2, full),
            r5 == with_bit(r4, 1, half),
            changed == with_bit(r5, 0, not_empty),
            size < 32,
    ;
}

/// The settings of the transmit queue stand in C1TXQCON, and nothing else changes.
pub proof fn lemma_queue_reads_back(raw: u32, config: TxQueueConfiguration)
    ensures
        ({
            let changed = Edit::TxQueue(config).applied(raw);
            &&& field(changed, 21, 2) == config.retransmission_attempts.code()
            &&& field(changed, 16, 5) == config.message_priority % 32
            &&& field(changed, 24, 5) + 1 == if 1 <= config.fifo_size <= 32 {
                config.fifo_size as int
            } else {
                32
            }
            &&& field(changed, 29, 3) == config.payload_size.code()
            &&& bit(changed, 4) <==> config.enable_transmit_attempts_exhausted_interrupt
            &&& bit(changed, 2) <==> config.enable_queue_empty_interrupt
            &&& bit(changed, 0) <==> config.enable_queue_not_full_interrupt
            &&& changed & !0xFF7F0015u32 == raw & !0xFF7F0015u32
        }),
{
    let attempts = config.retransmission_attempts.code();
    let priority = config.message_priority as u32;
    let size = fsize(config.fifo_size);
    let payload = config.payload_size.code();
    let exhausted = config.enable_transmit_attempts_exhausted_interrupt;
    let empty = config.enable_queue_empty_interrupt;
    let not_full = config.enable_queue_not_full_interrupt;
    let r1 = with_field(raw, 21, 2, attempts);
    let r2 = with_field(r1, 16, 5, priority);
    let r3 = with_field(r2, 24, 5, size);
    let r4 = with_field(r3, 29, 3, payload);
    let r5 = with_bit(r4, 4, exhausted);
    let r6 = with_bit(r5, 2, empty);
    let changed = with_bit(r6, 0, not_full);
    assert(Edit::TxQueue(config).applied(raw) == changed);
    assert(field(changed, 21, 2) == attempts && field(changed, 16, 5) == priority % 32
        && field(changed, 24, 5) == size && field(changed, 29, 3) == payload
        && (field(changed, 4, 1) == 1) == exhausted && (field(changed, 2, 1) == 1) == empty
        && (field(changed, 0, 1) == 1) == not_full
        && changed & !0xFF7F0015u32 == raw & !0xFF7F0015u32) by (bit_vector)
        requires
            r1 == with_field(raw, 21, 2, attempts),
            r2 == with_field(r1, 16, 5, priority),
            r3 == with_field(r2, 24, 5, size),
            r4 == with_field(r3, 29, 3, payload),
            r5 == with_bit(r4, 4, exhausted),
            r6 == with_bit(r5, 2, empty),
            changed == with_bit(r6, 0, not_full),
            attempts < 4,
            size < 32,
            payload < 8,
    ;
}

/// The prescaler is limited to 10 bits, the counter is started, and nothing else changes.
pub proof fn lemma_counter_reads_back(raw: u32, prescaler: u16)
    ensures
        ({
            let changed = Edit::TimeBaseCounter(prescaler).applied(raw);
            &&& field(changed, 0, 10) == if prescaler <= 1023 {
                prescaler as int
            } else {
                1023
            }
            &&& bit(changed, 16)
            &&& changed & !0x000103FFu32 == raw & !0x000103FFu32
        }),
{
    let limited = if prescaler <= 1023 {
        prescaler as u32
    } else {
        1023u32
    };
    let r1 = with_field(raw, 0, 10, limited);
    let changed = with_bit(r1, 16, true);
    assert(Edit::TimeBaseCounter(prescaler).applied(raw) == changed);
    assert(field(changed, 0, 10) == limited && field(changed, 16, 1) == 1
        && changed & !0x000103FFu32 == raw & !0x000103FFu32) by (bit_vector)
        requires
            r1 == with_field(raw, 0, 10, limited),
            changed == with_bit(r1, 16, true),
            limited < 1024,
    ;
}

/// The number of data bits to compare stands in DNCNT, and nothing else changes.
pub proof fn lemma_data_bits_reads_back(raw: u32, count: u8)
    ensures
        ({
            let changed = Edit::DataBitsToMatch(count).applied(raw);
            &&& field(changed, 0, 5) == count % 32
            &&& changed & !0x0000001Fu32 == raw & !0x0000001Fu32
        }),
{
    let value = count as u32;
    let changed = with_field(raw, 0, 5, value);
    assert(Edit::DataBitsToMatch(count).applied(raw) == changed);
    assert(field(changed, 0, 5) == value % 32
        && changed & !0x0000001Fu32 == raw & !0x0000001Fu32) by (bit_vector)
        requires
            changed == with_field(raw, 0, 5, value),
    ;
}

/// Retransmission limits are obeyed, and nothing else changes.
pub proof fn lemma_retransmission_limit_reads_back(raw: u32)
    ensures
        ({
            let changed = Edit::LimitRetransmissions.applied(raw);
            &&& bit(changed, 16)
            &&& changed & !0x00010000u32 == raw & !0x00010000u32
        }),
{
    let changed = with_bit(raw, 16, true);
    assert(Edit::LimitRetransmissions.applied(raw) == changed);
    assert(field(changed, 16, 1) == 1
        && changed & !0x00010000u32 == raw & !0x00010000u32) by (bit_vector)
        requires
            changed == with_bit(raw, 16, true),
    ;
}

/// The interrupts of reception and transmission are enabled, and those that are selected; the
/// others keep their state, and nothing else changes.
pub proof fn lemma_interrupts_read_back(raw: u32, selection: InterruptSelection)
    ensures
        ({
            let changed = Edit::Interrupts(selection).applied(raw);
            &&& bit(changed, 17)
            &&& bit(changed, 16)
            &&& bit(changed, 31) <==> (selection.can_errors || bit(raw, 31))
            &&& bit(changed, 29) <==> (selection.can_errors || bit(raw, 29))
            &&& bit(changed, 28) <==> (selection.can_errors || bit(raw, 28))
            &&& bit(changed, 25) <==> (selection.spi_errors || bit(raw, 25))
            &&& bit(changed, 24) <==> (selection.ecc_errors || bit(raw, 24))
            &&& bit(changed, 18) <==> (selection.counter_overflow || bit(raw, 18))
            &&& changed & !0xB3070000u32 == raw & !0xB3070000u32
        }),
{
    let can = selection.can_errors;
    let spi = selection.spi_errors;
    let ecc = selection.ecc_errors;
    let counter = selection.counter_overflow;
    let r1 = with_bit(raw, 17, true);
    let r2 = with_bit(r1, 16, true);
    let r3 = if can { with_bit(r2, 31, true) } else { r2 };
    let r4 = if can { with_bit(r3, 29, true) } else { r3 };
    let r5 = if can { with_bit(r4, 28, true) } else { r4 };
    let r6 = if spi { with_bit(r5, 25, true) } else { r5 };
    let r7 = if ecc { with_bit(r6, 24, true) } else { r6 };
    let changed = if counter { with_bit(r7, 18, true) } else { r7 };
    assert(Edit::Interrupts(selection).applied(raw) == changed);
    assert(field(changed, 17, 1) == 1 && field(changed, 16, 1) == 1
        && (field(changed, 31, 1) == 1) == (can || field(raw, 31, 1) == 1)
        && (field(changed, 29, 1) == 1) == (can || field(raw, 29, 1) == 1)
        && (field(changed, 28, 1) == 1) == (can || field(raw, 28, 1) == 1)
        && (field(changed, 25, 1) == 1) == (spi || field(raw, 25, 1) == 1)
        && (field(changed, 24, 1) == 1) == (ecc || field(raw, 24, 1) == 1)
        && (field(changed, 18, 1) == 1) == (counter || field(raw, 18, 1) == 1)
        && changed & !0xB3070000u32 == raw & !0xB3070000u32) by (bit_vector)
        requires
            r1 == with_bit(raw, 17, true),
            r2 == with_bit(r1, 16, true),
            r3 == if can { with_bit(r2, 31, true) } else { r2 },
            r4 == if can { with_bit(r3, 29, true) } else { r3 },
            r5 == if can { with_bit(r4, 28, true) } else { r4 },
            r6 == if spi { with_bit(r5, 25, true) } else { r5 },
            r7 == if ecc { with_bit(r6, 24, true) } else { r6 },
            changed == if counter { with_bit(r7, 18, true) } else { r7 },
    ;
}

/// The settings of a FIFO that transmits stand in its control register, and nothing else changes.
pub proof fn lemma_tx_fifo_reads_back(raw: u32, config: FifoConfiguration, tx: TxFifoConfiguration)
    requires
        config.mode == FifoMode::Transmit(tx),
    ensures
        ({
            let changed = with_fifo(raw, config);
            &&& field(changed, 24, 5) + 1 == if 1 <= config.fifo_size <= 32 {
                config.fifo_size as int
            } else {
                32
            }
            &&& field(changed, 29, 3) == config.payload_size.code()
            &&& bit(changed, 7)
            &&& field(changed, 16, 5) == tx.priority % 32
            &&& field(changed, 21, 2) == tx.retransmission_attempts.code()
            &&& bit(changed, 6) <==> tx.enable_auto_rtr
            &&& bit(changed, 4) <==> tx.enable_transmit_attempts_exhausted_interrupt
            &&& bit(changed, 2) <==> tx.enable_fifo_empty_interrupt
            &&& bit(changed, 1) <==> tx.enable_fifo_half_empty_interrupt
            &&& bit(changed, 0) <==> tx.enable_fifo_not_full_interrupt
            &&& changed & !0xFF7F00D7u32 == raw & !0xFF7F00D7u32
        }),
{
    let size = fsize(config.fifo_size);
    let payload = config.payload_size.code();
    let priority = tx.priority as u32;
    let attempts = tx.retransmission_attempts.code();
    let remote = tx.enable_auto_rtr;
    let exhausted = tx.enable_transmit_attempts_exhausted_interrupt;
    let empty = tx.enable_fifo_empty_interrupt;
    let half = tx.enable_fifo_half_empty_interrupt;
    let not_full = tx.enable_fifo_not_full_interrupt;
    let r1 = with_field(raw, 24, 5, size);
    let r2 = with_field(r1, 29, 3, payload);
    let r3 = with_bit(r2, 7, true);
    let r4 = with_field(r3, 16, 5, priority);
    let r5 = with_field(r4, 21, 2, attempts);
    let r6 = with_bit(r5, 6, remote);
    let r7 = with_bit(r6, 4, exhausted);
    let r8 = with_bit(r7, 2, empty);
    let r9 = with_bit(r8, 1, half);
    let changed = with_bit(r9, 0, not_full);
    assert(with_fifo(raw, config) == changed);
    assert(field(changed, 24, 5) == size && field(changed, 29, 3) == payload
        && field(changed, 7, 1) == 1 && field(changed, 16, 5) == priority % 32
        && field(changed, 21, 2) == attempts && (field(changed, 6, 1) == 1) == remote
        && (field(changed, 4, 1) == 1) == exhausted && (field(changed, 2, 1) == 1) == empty
        && (field(changed, 1, 1) == 1) == half && (field(changed, 0, 1) == 1) == not_full
        && changed & !0xFF7F00D7u32 == raw & !0xFF7F00D7u32) by (bit_vector)
        requires
            r1 == with_field(raw, 24, 5, size),
            r2 == with_field(r1, 29, 3, payload),
            r3 == with_bit(r2, 7, true),
            r4 == with_field(r3, 16, 5, priority),
            r5 == with_field(r4, 21, 2, attempts),
            r6 == with_bit(r5, 6, remote),
            r7 == with_bit(r6, 4, exhausted),
            r8 == with_bit(r7, 2, empty),
            r9 == with_bit(r8, 1, half),
            changed == with_bit(r9, 0, not_full),
            attempts < 4,
            size < 32,
            payload < 8,
    ;
}

/// The settings of a FIFO that receives stand in its control register, and nothing else changes.
pub proof fn lemma_rx_fifo_reads_back(raw: u32, config: FifoConfiguration, rx: RxFifoConfiguration)
    requires
        config.mode == FifoMode::Receive(rx),
    ensures
        ({
            let changed = with_fifo(raw, config);
            &&& field(changed, 24, 5) + 1 == if 1 <= config.fifo_size <= 32 {
                config.fifo_size as int
            } else {
                32
            }
            &&& field(changed, 29, 3) == config.payload_size.code()
            &&& !bit(changed, 7)
            &&& bit(changed, 5) <==> rx.enable_message_timestamps
            &&& bit(changed, 3) <==> rx.enable_fifo_overflow_interrupt
            &&& bit(changed, 2) <==> rx.enable_fifo_full_interrupt
            &&& bit(changed, 1) <==> rx.enable_fifo_half_full_interrupt
            &&& bit(changed, 0) <==> rx.enable_fifo_not_empty_interrupt
            &&& changed & !0xFF0000AFu32 == raw & !0xFF0000AFu32
        }),
{
    let size = fsize(config.fifo_size);
    let payload = config.payload_size.code();
    let timestamps = rx.enable_message_timestamps;
    let overflow = rx.enable_fifo_overflow_interrupt;
    let full = rx.enable_fifo_full_interrupt;
    let half = rx.enable_fifo_half_full_interrupt;
    let not_empty = rx.enable_fifo_not_empty_interrupt;
    let r1 = with_field(raw, 24, 5, size);
    let r2 = with_field(r1, 29, 3, payload);
    let r3 = with_bit(r2, 7, false);
    let r4 = with_bit(r3, 5, timestamps);
    let r5 = with_bit(r4, 3, overflow);
    let r6 = with_bit(r5, 2, full);
    let r7 = with_bit(r6, 1, half);
    let changed = with_bit(r7, 0, not_empty);
    assert(with_fifo(raw, config) == changed);
    assert(field(changed, 24, 5) == size && field(changed, 29, 3) == payload
        && field(changed, 7, 1) != 1 && (field(changed, 5, 1) == 1) == timestamps
        && (field(changed, 3, 1) == 1) == overflow && (field(changed, 2, 1) == 1) == full
        && (field(changed, 1, 1) == 1) == half && (field(changed, 0, 1) == 1) == not_empty
        && changed & !0xFF0000AFu32 == raw & !0xFF0000AFu32) by (bit_vector)
        requires
            r1 == with_field(raw, 24, 5, size),
            r2 == with_field(r1, 29, 3, payload),
            r3 == with_bit(r2, 7, false),
            r4 == with_bit(r3, 5, timestamps),
            r5 == with_bit(r4, 3, overflow),
            r6 == with_bit(r5, 2, full),
            r7 == with_bit(r6, 1, half),
            changed == with_bit(r7, 0, not_empty),
            size < 32,
            payload < 8,
    ;
}

/// An identifier stands in bits 0 to 28 of a filter object or mask, the frame type in bit 30, and
/// nothing else changes: a standard identifier stands in the 11 bits of the base identifier with
/// the 18 bits of extension at 0, an extended one has its upper 11 bits in the base identifier and
/// its lower 18 bits in the extension.
proof fn lemma_identifier_with_type(raw: u32, id: Id, flag: bool)
    requires
        id.is_valid(),
    ensures
        ({
            let changed = with_bit(with_identifier(raw, id), 30, flag);
            &&& field(changed, 0, 11) == match id {
                Id::Standard(standard) => standard as int,
                Id::Extended(extended) => extended as int / 0x4_0000,
            }
            &&& field(changed, 11, 18) == match id {
                Id::Standard(_) => 0,
                Id::Extended(extended) => extended as int % 0x4_0000,
            }
            &&& bit(changed, 30) <==> flag
            &&& changed & !0x5FFF_FFFFu32 == raw & !0x5FFF_FFFFu32
        }),
{
    let (sid, eid) = match id {
        Id::Standard(standard) => (standard as u32, 0u32),
        Id::Extended(extended) => (extended >> 18, extended),
    };
    if let Id::Extended(extended) = id {
        assert(extended >> 18 == extended / 0x4_0000 && extended >> 18 < 0x800) by (bit_vector)
            requires
                extended <= 0x1FFF_FFFF,
        ;
    }
    let r1 = with_field(raw, 0, 11, sid);
    let r2 = with_field(r1, 11, 18, eid);
    let changed = with_bit(r2, 30, flag);
    assert(field(changed, 0, 11) == sid && field(changed, 11, 18) == eid % 0x4_0000 && (field(
        changed,
        30,
        1,
    ) == 1) == flag && changed & !0x5FFF_FFFFu32 == raw & !0x5FFF_FFFFu32) by (bit_vector)
        requires
            r1 == with_field(raw, 0, 11, sid),
            r2 == with_field(r1, 11, 18, eid),
            changed == with_bit(r2, 30, flag),
            sid < 0x800,
    ;
}

/// The identifier to compare with stands in the filter object, whatever the frames that the filter
/// is for; only the frame type depends on these. Nothing else changes.
pub proof fn lemma_filter_object_reads_back(raw: u32, config: FilterConfiguration)
    requires
        config.is_valid(),
    ensures
        ({
            let changed = with_filter_object(raw, config);
            &&& field(changed, 0, 11) == match config.filter_bits {
                Id::Standard(standard) => standard as int,
                Id::Extended(extended) => extended as int / 0x4_0000,
            }
            &&& field(changed, 11, 18) == match config.filter_bits {
                Id::Standard(_) => 0,
                Id::Extended(extended) => extended as int % 0x4_0000,
            }
            &&& bit(changed, 30) <==> config.mode == FilterMatchMode::ExtendedOnly
            &&& changed & !0x5FFF_FFFFu32 == raw & !0x5FFF_FFFFu32
        }),
{
    lemma_identifier_with_type(raw, config.filter_bits, config.mode is ExtendedOnly);
}

/// The identifier bits to compare stand in the filter mask, whatever the frames that the filter is
/// for; only whether the frame type is compared depends on these. Nothing else changes.
pub proof fn lemma_filter_mask_reads_back(raw: u32, config: FilterConfiguration)
    requires
        config.is_valid(),
    ensures
        ({
            let changed = with_filter_mask(raw, config);
            &&& field(changed, 0, 11) == match config.mask_bits {
                Id::Standard(standard) => standard as int,
                Id::Extended(extended) => extended as int / 0x4_0000,
            }
            &&& field(changed, 11, 18) == match config.mask_bits {
                Id::Standard(_) => 0,
                Id::Extended(extended) => extended as int % 0x4_0000,
            }
            &&& bit(changed, 30) <==> config.mode != FilterMatchMode::Both
            &&& changed & !0x5FFF_FFFFu32 == raw & !0x5FFF_FFFFu32
        }),
{
    lemma_identifier_with_type(raw, config.mask_bits, !(config.mode is Both));
}

} // verus!
