//! Changes to registers: which fields the driver sets, and to what.

use vstd::prelude::*;

use crate::bits::{bit, field, lemma_bit_reads_back, ones, with_bit, with_field};
use crate::memory::chip::{
    IoControlRegister, OscillatorControlRegister, IOCON_INTOD, IOCON_SOF, IOCON_TXCANOD,
    IOCON_XSTBYEN, OSC_OSCDIS, OSC_PLLEN, OSC_SCLKDIV,
};
use crate::memory::controller::configuration::{
    CanControlRegister, DataBitTimeConfigurationRegister, NominalBitTimeConfigurationRegister,
    OperationMode, TimeStampControlRegister, TransmitterDelayCompensationMode,
    TransmitterDelayCompensationRegister, CON_DNCNT, CON_REQOP, CON_RTXAT, CON_STEF, CON_TXQEN,
    DBTCFG_BRP, DBTCFG_SJW, DBTCFG_TSEG1, DBTCFG_TSEG2, NBTCFG_BRP, NBTCFG_SJW, NBTCFG_TSEG1,
    NBTCFG_TSEG2, TDC_TDCMOD, TDC_TDCO, TDC_TDCV, TSCON_TBCEN, TSCON_TBCPRE,
};
use crate::memory::controller::fifo::{
    fsize, FifoControlRegister, FifoNumber, TxEventFifoControlRegister, TxQueueControlRegister,
    FIFOCON_FSIZE, FIFOCON_PLSIZE, FIFOCON_RTREN, FIFOCON_RXOVIE, FIFOCON_RXTSEN, FIFOCON_TFERFFIE,
    FIFOCON_TFHRFHIE, FIFOCON_TFNRFNIE, FIFOCON_TXAT, FIFOCON_TXATIE, FIFOCON_TXEN, FIFOCON_TXPRI,
    TEFCON_TEFFIE, TEFCON_TEFHIE, TEFCON_TEFNEIE, TEFCON_TEFOVIE, TEFCON_TEFTSEN, TXQCON_TXATIE,
    TXQCON_TXPRI, TXQCON_TXQEIE, TXQCON_TXQNIE,
};
use crate::memory::controller::filter::{
    enable_position, pointer_position, FilterControlRegister, FilterNumber, FilterObjectRegister,
    MaskRegister, FLTOBJ_EID, FLTOBJ_EXIDE, FLTOBJ_SID, MASK_MIDE,
};
use crate::memory::controller::interrupt::{
    InterruptRegister, INT_CERRIE, INT_ECCIE, INT_IVMIE, INT_RXIE, INT_SERRIE, INT_SPICRCIE,
    INT_TBCIE, INT_TXIE,
};
use crate::memory::SFRAddress;
use crate::settings::{
    DataBitTimeConfiguration, FifoConfiguration, FifoMode, FilterConfiguration, FilterMatchMode,
    Id, IoConfiguration, NominalBitTimeConfiguration, OscillatorConfiguration, Pll,
    RxFifoConfiguration, SysClkDivider, TxEventFifoConfiguration, TxFifoConfiguration,
    TxQueueConfiguration, MAX_PRESCALER,
};

verus! {

/// The base identifier of an extended identifier.
///
/// Calls `embedded_can::ExtendedId::new`, and `standard_id` and `as_raw` on what it returns.
/// Trusted: an identifier of up to 29 bits exists, and its base identifier is its upper 11 bits.
#[verifier::external_body]
fn base_identifier(raw: u32) -> (sid: u16)
    requires
        raw <= 0x1FFF_FFFF,
    ensures
        sid == raw >> 18,
{
    embedded_can::ExtendedId::new(raw).unwrap().standard_id().as_raw()
}

/// The largest standard identifier.
///
/// Calls `as_raw` on `embedded_can::StandardId::MAX`. Trusted: that identifier is 0x7FF.
#[verifier::external_body]
fn largest_standard_identifier() -> (raw: u16)
    ensures
        raw == 0x7FF,
{
    embedded_can::StandardId::MAX.as_raw()
}

/// Which interrupts are enabled besides those of reception and transmission.
#[derive(Clone, Copy, Debug, PartialEq, Eq, Structural)]
pub struct InterruptSelection {
    /// Invalid messages, CAN bus errors and system errors.
    pub can_errors: bool,
    /// CRC errors on the SPI bus.
    pub spi_errors: bool,
    /// ECC errors of the RAM.
    pub ecc_errors: bool,
    /// Overflow of the time base counter.
    pub counter_overflow: bool,
}

/// A change to one register: it is read, some of its fields are set, and it is written back.
#[derive(Clone, Copy, Debug)]
pub enum Edit {
    /// Requests an operation mode.
    RequestMode(OperationMode),
    /// Sets up the system clock, and enables it.
    Oscillator(OscillatorConfiguration),
    /// Sets up the bit timing of the arbitration phase.
    NominalBitTime(NominalBitTimeConfiguration),
    /// Sets up the bit timing of the data phase.
    DataBitTime(DataBitTimeConfiguration),
    /// Sets up automatic transmitter delay compensation.
    DelayCompensation(DataBitTimeConfiguration),
    /// Enables or disables the transmit event FIFO.
    EnableTxEventFifo(bool),
    /// Sets up the transmit event FIFO.
    TxEventFifo(TxEventFifoConfiguration),
    /// Enables or disables the transmit queue.
    EnableTxQueue(bool),
    /// Sets up the transmit queue.
    TxQueue(TxQueueConfiguration),
    /// Sets up the prescaler of the time base counter, and starts the counter.
    TimeBaseCounter(u16),
    /// Sets how many data bits filters compare.
    DataBitsToMatch(u8),
    /// Makes the controller obey the retransmission limits.
    LimitRetransmissions,
    /// Enables interrupts.
    Interrupts(InterruptSelection),
    /// Sets up a FIFO.
    Fifo(FifoNumber, FifoConfiguration),
    /// Disables a filter.
    DisableFilter(FilterNumber),
    /// Sets the identifier that a filter compares with.
    FilterObject(FilterNumber, FilterConfiguration),
    /// Sets the identifier bits that a filter compares.
    FilterMask(FilterNumber, FilterConfiguration),
    /// Sets the FIFO that a filter feeds, and enables the filter.
    EnableFilter(FilterNumber, FilterConfiguration),
}

/// A filter object or mask with the parts of an identifier: 11 bits of base identifier from bit
/// 0 on, and 18 bits of extension from bit 11 on, which are 0 for a standard identifier.
pub open spec fn with_identifier(raw: u32, id: Id) -> u32 {
    match id {
        Id::Standard(sid) => with_field(
            with_field(raw, FLTOBJ_SID, 11, sid as u32),
            FLTOBJ_EID,
            18,
            0,
        ),
        Id::Extended(eid) => with_field(
            with_field(raw, FLTOBJ_SID, 11, eid >> 18),
            FLTOBJ_EID,
            18,
            eid,
        ),
    }
}

/// The I/O control register with the given settings.
pub open spec fn with_io(raw: u32, io: IoConfiguration) -> u32 {
    let raw = with_bit(raw, IOCON_XSTBYEN, io.enable_tx_standby_pin);
    let raw = with_bit(raw, IOCON_TXCANOD, io.tx_can_open_drain);
    let raw = with_bit(raw, IOCON_SOF, io.start_of_frame_on_clko);
    with_bit(raw, IOCON_INTOD, io.interrupt_pin_open_drain)
}

/// A FIFO control register of a FIFO that transmits.
pub open spec fn with_tx_fifo(raw: u32, tx: TxFifoConfiguration) -> u32 {
    let raw = with_bit(raw, FIFOCON_TXEN, true);
    let raw = with_field(raw, FIFOCON_TXPRI, 5, tx.priority as u32);
    let raw = with_field(raw, FIFOCON_TXAT, 2, tx.retransmission_attempts.code());
    let raw = with_bit(raw, FIFOCON_RTREN, tx.enable_auto_rtr);
    let raw = with_bit(raw, FIFOCON_TXATIE, tx.enable_transmit_attempts_exhausted_interrupt);
    let raw = with_bit(raw, FIFOCON_TFERFFIE, tx.enable_fifo_empty_interrupt);
    let raw = with_bit(raw, FIFOCON_TFHRFHIE, tx.enable_fifo_half_empty_interrupt);
    with_bit(raw, FIFOCON_TFNRFNIE, tx.enable_fifo_not_full_interrupt)
}

/// A FIFO control register of a FIFO that receives.
pub open spec fn with_rx_fifo(raw: u32, rx: RxFifoConfiguration) -> u32 {
    let raw = with_bit(raw, FIFOCON_TXEN, false);
    let raw = with_bit(raw, FIFOCON_RXTSEN, rx.enable_message_timestamps);
    let raw = with_bit(raw, FIFOCON_RXOVIE, rx.enable_fifo_overflow_interrupt);
    let raw = with_bit(raw, FIFOCON_TFERFFIE, rx.enable_fifo_full_interrupt);
    let raw = with_bit(raw, FIFOCON_TFHRFHIE, rx.enable_fifo_half_full_interrupt);
    with_bit(raw, FIFOCON_TFNRFNIE, rx.enable_fifo_not_empty_interrupt)
}

/// A FIFO control register with the given settings.
pub open spec fn with_fifo(raw: u32, config: FifoConfiguration) -> u32 {
    let raw = with_field(raw, FIFOCON_FSIZE, 5, fsize(config.fifo_size));
    let raw = with_field(raw, FIFOCON_PLSIZE, 3, config.payload_size.code());
    match config.mode {
        FifoMode::Transmit(tx) => with_tx_fifo(raw, tx),
        FifoMode::Receive(rx) => with_rx_fifo(raw, rx),
    }
}

/// A filter object register: only extended frames match if the filter is for those alone.
pub open spec fn with_filter_object(raw: u32, config: FilterConfiguration) -> u32 {
    with_bit(
        with_identifier(raw, config.filter_bits),
        FLTOBJ_EXIDE,
        config.mode is ExtendedOnly,
    )
}

/// A filter mask register: the frame type must match unless the filter is for both.
pub open spec fn with_filter_mask(raw: u32, config: FilterConfiguration) -> u32 {
    with_bit(with_identifier(raw, config.mask_bits), MASK_MIDE, !(config.mode is Both))
}

/// `raw` with bit `n` set if `value` is true, and unchanged otherwise.
pub open spec fn with_bit_if(raw: u32, n: u32, value: bool) -> u32 {
    if value {
        with_bit(raw, n, true)
    } else {
        raw
    }
}

/// The interrupt register with the selected interrupts enabled; the others stay as they are.
pub open spec fn with_interrupts(raw: u32, selection: InterruptSelection) -> u32 {
    let raw = with_bit(raw, INT_RXIE, true);
    let raw = with_bit(raw, INT_TXIE, true);
    let raw = with_bit_if(raw, INT_IVMIE, selection.can_errors);
    let raw = with_bit_if(raw, INT_CERRIE, selection.can_errors);
    let raw = with_bit_if(raw, INT_SERRIE, selection.can_errors);
    let raw = with_bit_if(raw, INT_SPICRCIE, selection.spi_errors);
    let raw = with_bit_if(raw, INT_ECCIE, selection.ecc_errors);
    with_bit_if(raw, INT_TBCIE, selection.counter_overflow)
}

impl Edit {
    /// The register that changes.
    pub open spec fn address(self) -> SFRAddress {
        match self {
            Edit::RequestMode(_) => SFRAddress::C1CON,
            Edit::Oscillator(_) => SFRAddress::OSC,
            Edit::NominalBitTime(_) => SFRAddress::C1NBTCFG,
            Edit::DataBitTime(_) => SFRAddress::C1DBTCFG,
            Edit::DelayCompensation(_) => SFRAddress::C1TDC,
            Edit::EnableTxEventFifo(_) => SFRAddress::C1CON,
            Edit::TxEventFifo(_) => SFRAddress::C1TEFCON,
            Edit::EnableTxQueue(_) => SFRAddress::C1CON,
            Edit::TxQueue(_) => SFRAddress::C1TXQCON,
            Edit::TimeBaseCounter(_) => SFRAddress::C1TSCON,
            Edit::DataBitsToMatch(_) => SFRAddress::C1CON,
            Edit::LimitRetransmissions => SFRAddress::C1CON,
            Edit::Interrupts(_) => SFRAddress::C1INT,
            Edit::Fifo(fifo, _) => SFRAddress::C1FIFOCON(fifo),
            Edit::DisableFilter(filter) => SFRAddress::C1FLTCON(filter.control()),
            Edit::FilterObject(filter, _) => SFRAddress::C1FLTOBJ(filter),
            Edit::FilterMask(filter, _) => SFRAddress::C1MASK(filter),
            Edit::EnableFilter(filter, _) => SFRAddress::C1FLTCON(filter.control()),
        }
    }

    /// The identifiers of filters are valid.
    pub open spec fn is_valid(self) -> bool {
        match self {
            Edit::FilterObject(_, config) => config.filter_bits.is_valid(),
            Edit::FilterMask(_, config) => config.mask_bits.is_valid(),
            _ => true,
        }
    }

    /// The register after the change.
    pub open spec fn applied(self, raw: u32) -> u32 {
        match self {
            Edit::RequestMode(mode) => with_field(raw, CON_REQOP, 3, mode.code()),
            Edit::Oscillator(oscillator) => {
                let raw = with_bit(raw, OSC_PLLEN, oscillator.pll is On);
                let raw = with_bit(raw, OSC_SCLKDIV, oscillator.divider is DivByTwo);
                with_bit(raw, OSC_OSCDIS, false)
            },
            Edit::NominalBitTime(timing) => {
                let raw = with_field(raw, NBTCFG_BRP, 8, timing.baud_rate_prescaler as u32);
                let raw = with_field(raw, NBTCFG_TSEG1, 8, timing.time_segment_1 as u32);
                let raw = with_field(raw, NBTCFG_TSEG2, 7, timing.time_segment_2@ as u32);
                with_field(raw, NBTCFG_SJW, 7, timing.synchronization_jump_width@ as u32)
            },
            Edit::DataBitTime(timing) => {
                let raw = with_field(raw, DBTCFG_BRP, 8, timing.baud_rate_prescaler as u32);
                let raw = with_field(raw, DBTCFG_TSEG1, 5, timing.time_segment_1@ as u32);
                let raw = with_field(raw, DBTCFG_TSEG2, 4, timing.time_segment_2@ as u32);
                with_field(raw, DBTCFG_SJW, 4, timing.synchronization_jump_width@ as u32)
            },
            Edit::DelayCompensation(timing) => {
                let raw = with_field(
                    raw,
                    TDC_TDCMOD,
                    2,
                    TransmitterDelayCompensationMode::Automatic.code(),
                );
                let raw = with_field(
                    raw,
                    TDC_TDCO,
                    7,
                    timing.transmitter_delay_compensation_offset@ as u32,
                );
                with_field(raw, TDC_TDCV, 6, 0)
            },
            Edit::EnableTxEventFifo(enabled) => with_bit(raw, CON_STEF, enabled),
            Edit::TxEventFifo(config) => {
                let raw = with_field(raw, FIFOCON_FSIZE, 5, fsize(config.fifo_size));
                let raw = with_bit(raw, TEFCON_TEFTSEN, config.enable_timestamps);
                let raw = with_bit(raw, TEFCON_TEFOVIE, config.enable_fifo_overflow_interrupt);
                let raw = with_bit(raw, TEFCON_TEFFIE, config.enable_fifo_full_interrupt);
                let raw = with_bit(raw, TEFCON_TEFHIE, config.enable_fifo_half_full_interrupt);
                with_bit(raw, TEFCON_TEFNEIE, config.enable_fifo_not_empty_interrupt)
            },
            Edit::EnableTxQueue(enabled) => with_bit(raw, CON_TXQEN, enabled),
            Edit::TxQueue(config) => {
                let raw = with_field(raw, FIFOCON_TXAT, 2, config.retransmission_attempts.code());
                let raw = with_field(raw, TXQCON_TXPRI, 5, config.message_priority as u32);
                let raw = with_field(raw, FIFOCON_FSIZE, 5, fsize(config.fifo_size));
                let raw = with_field(raw, FIFOCON_PLSIZE, 3, config.payload_size.code());
                let raw = with_bit(
                    raw,
                    TXQCON_TXATIE,
                    config.enable_transmit_attempts_exhausted_interrupt,
                );
                let raw = with_bit(raw, TXQCON_TXQEIE, config.enable_queue_empty_interrupt);
                with_bit(raw, TXQCON_TXQNIE, config.enable_queue_not_full_interrupt)
            },
            Edit::TimeBaseCounter(prescaler) => {
                let limited = if prescaler <= MAX_PRESCALER {
                    prescaler
                } else {
                    MAX_PRESCALER
                };
                with_bit(with_field(raw, TSCON_TBCPRE, 10, limited as u32), TSCON_TBCEN, true)
            },
            Edit::DataBitsToMatch(count) => with_field(raw, CON_DNCNT, 5, count as u32),
            Edit::LimitRetransmissions => with_bit(raw, CON_RTXAT, true),
            Edit::Interrupts(selection) => with_interrupts(raw, selection),
            Edit::Fifo(_, config) => with_fifo(raw, config),
            Edit::DisableFilter(filter) => with_bit(
                raw,
                enable_position((filter.index() % 4) as u8),
                false,
            ),
            Edit::FilterObject(_, config) => with_filter_object(raw, config),
            Edit::FilterMask(_, config) => with_filter_mask(raw, config),
            Edit::EnableFilter(filter, config) => {
                let place = (filter.index() % 4) as u8;
                let raw = with_field(
                    raw,
                    pointer_position(place),
                    5,
                    config.buffer_pointer.index() as u32,
                );
                with_bit(raw, enable_position(place), true)
            },
        }
    }

    /// The register that changes.
    pub fn register(&self) -> (address: SFRAddress)
        ensures
            address == self.address(),
    {
        match *self {
            Edit::RequestMode(_) => SFRAddress::C1CON,
            Edit::Oscillator(_) => SFRAddress::OSC,
            Edit::NominalBitTime(_) => SFRAddress::C1NBTCFG,
            Edit::DataBitTime(_) => SFRAddress::C1DBTCFG,
            Edit::DelayCompensation(_) => SFRAddress::C1TDC,
            Edit::EnableTxEventFifo(_) => SFRAddress::C1CON,
            Edit::TxEventFifo(_) => SFRAddress::C1TEFCON,
            Edit::EnableTxQueue(_) => SFRAddress::C1CON,
            Edit::TxQueue(_) => SFRAddress::C1TXQCON,
            Edit::TimeBaseCounter(_) => SFRAddress::C1TSCON,
            Edit::DataBitsToMatch(_) => SFRAddress::C1CON,
            Edit::LimitRetransmissions => SFRAddress::C1CON,
            Edit::Interrupts(_) => SFRAddress::C1INT,
            Edit::Fifo(fifo, _) => SFRAddress::C1FIFOCON(fifo),
            Edit::DisableFilter(filter) => SFRAddress::C1FLTCON(filter.get_control_register().0),
            Edit::FilterObject(filter, _) => SFRAddress::C1FLTOBJ(filter),
            Edit::FilterMask(filter, _) => SFRAddress::C1MASK(filter),
            Edit::EnableFilter(filter, _) => SFRAddress::C1FLTCON(filter.get_control_register().0),
        }
    }

    /// The register after the change.
    pub fn apply(&self, raw: u32) -> (result: u32)
        requires
            self.is_valid(),
        ensures
            result == self.applied(raw),
    {
        match *self {
            Edit::RequestMode(mode) => {
                let mut con = CanControlRegister(raw);
                con.set_opmode(mode);
                con.0
            },
            Edit::Oscillator(oscillator) => oscillator_control(raw, oscillator),
            Edit::NominalBitTime(timing) => nominal_bit_time(raw, timing),
            Edit::DataBitTime(timing) => data_bit_time(raw, timing),
            Edit::DelayCompensation(timing) => delay_compensation(raw, timing),
            Edit::EnableTxEventFifo(enabled) => {
                let mut con = CanControlRegister(raw);
                con.set_stef(enabled);
                con.0
            },
            Edit::TxEventFifo(config) => tx_event_fifo_control(raw, config),
            Edit::EnableTxQueue(enabled) => {
                let mut con = CanControlRegister(raw);
                con.set_txqen(enabled);
                con.0
            },
            Edit::TxQueue(config) => tx_queue_control(raw, config),
            Edit::TimeBaseCounter(prescaler) => {
                let mut tscon = TimeStampControlRegister(raw);
                tscon.set_tbcpre(
                    if prescaler <= MAX_PRESCALER {
                        prescaler
                    } else {
                        MAX_PRESCALER
                    },
                );
                tscon.set_tbcen(true);
                tscon.0
            },
            Edit::DataBitsToMatch(count) => {
                let mut con = CanControlRegister(raw);
                con.set_dncnt(count);
                con.0
            },
            Edit::LimitRetransmissions => {
                let mut con = CanControlRegister(raw);
                con.set_rtxat(true);
                con.0
            },
            Edit::Interrupts(selection) => interrupt_enables(raw, selection),
            Edit::Fifo(_, config) => fifo_control(raw, config),
            Edit::DisableFilter(filter) => {
                let mut control = FilterControlRegister(raw);
                control.set_enabled(filter.get_control_register().1, false);
                control.0
            },
            Edit::FilterObject(_, config) => filter_object(raw, config),
            Edit::FilterMask(_, config) => filter_mask(raw, config),
            Edit::EnableFilter(filter, config) => {
                let place: u8 = filter.get_control_register().1;
                let mut control = FilterControlRegister(raw);
                control.set_buffer_pointer(place, config.buffer_pointer);
                control.set_enabled(place, true);
                control.0
            },
        }
    }
}

/// Sets up the system clock, and enables it.
fn oscillator_control(raw: u32, oscillator: OscillatorConfiguration) -> (result: u32)
    ensures
        result == Edit::Oscillator(oscillator).applied(raw),
{
    let mut osc = OscillatorControlRegister(raw);
    // If enabled, system clock comes from 10x PLL, otherwise it comes directly from the XTAL
    osc.set_pllen(
        match oscillator.pll {
            Pll::On => true,
            Pll::Off => false,
        },
    );
    // Whether or not to divide the system clock by 2
    osc.set_sclkdiv(
        match oscillator.divider {
            SysClkDivider::DivByOne => false,
            SysClkDivider::DivByTwo => true,
        },
    );
    // Enable the clock
    osc.set_oscdis(false);
    osc.0
}

/// Sets up the bit timing of the arbitration phase.
fn nominal_bit_time(raw: u32, timing: NominalBitTimeConfiguration) -> (result: u32)
    ensures
        result == Edit::NominalBitTime(timing).applied(raw),
{
    let mut cinbtcfg = NominalBitTimeConfigurationRegister(raw);
    cinbtcfg.set_brp(timing.baud_rate_prescaler);
    cinbtcfg.set_tseg1(timing.time_segment_1);
    cinbtcfg.set_tseg2(timing.time_segment_2.value());
    cinbtcfg.set_sjw(timing.synchronization_jump_width.value());
    cinbtcfg.0
}

/// Sets up the bit timing of the data phase.
fn data_bit_time(raw: u32, timing: DataBitTimeConfiguration) -> (result: u32)
    ensures
        result == Edit::DataBitTime(timing).applied(raw),
{
    let mut cidbtcfg = DataBitTimeConfigurationRegister(raw);
    cidbtcfg.set_brp(timing.baud_rate_prescaler);
    cidbtcfg.set_tseg1(timing.time_segment_1.value());
    cidbtcfg.set_tseg2(timing.time_segment_2.value());
    cidbtcfg.set_sjw(timing.synchronization_jump_width.value());
    cidbtcfg.0
}

/// Sets up automatic transmitter delay compensation.
fn delay_compensation(raw: u32, timing: DataBitTimeConfiguration) -> (result: u32)
    ensures
        result == Edit::DelayCompensation(timing).applied(raw),
{
    let mut citdc = TransmitterDelayCompensationRegister(raw);
    citdc.set_tdcmod(TransmitterDelayCompensationMode::Automatic);
    citdc.set_tdco(timing.transmitter_delay_compensation_offset.value());
    citdc.set_tdcv(0);
    citdc.0
}

/// Sets up the transmit event FIFO.
fn tx_event_fifo_control(raw: u32, config: TxEventFifoConfiguration) -> (result: u32)
    ensures
        result == Edit::TxEventFifo(config).applied(raw),
{
    let mut tef_control = TxEventFifoControlRegister(raw);
    tef_control.set_fifo_size(config.fifo_size);
    tef_control.set_teftsen(config.enable_timestamps);
    tef_control.set_tefovie(config.enable_fifo_overflow_interrupt);
    tef_control.set_teffie(config.enable_fifo_full_interrupt);
    tef_control.set_tefhie(config.enable_fifo_half_full_interrupt);
    tef_control.set_tefneie(config.enable_fifo_not_empty_interrupt);
    tef_control.0
}

/// Sets up the transmit queue.
fn tx_queue_control(raw: u32, config: TxQueueConfiguration) -> (result: u32)
    ensures
        result == Edit::TxQueue(config).applied(raw),
{
    let mut tx_queue_control = TxQueueControlRegister(raw);
    tx_queue_control.set_retransmission_attempts(config.retransmission_attempts);
    tx_queue_control.set_txpri(config.message_priority);
    tx_queue_control.set_fifo_size(config.fifo_size);
    tx_queue_control.set_payload_size(config.payload_size);
    tx_queue_control.set_txatie(config.enable_transmit_attempts_exhausted_interrupt);
    tx_queue_control.set_txqeie(config.enable_queue_empty_interrupt);
    tx_queue_control.set_txqnie(config.enable_queue_not_full_interrupt);
    tx_queue_control.0
}

/// Enables interrupts.
fn interrupt_enables(raw: u32, selection: InterruptSelection) -> (result: u32)
    ensures
        result == with_interrupts(raw, selection),
{
    let mut ciint = InterruptRegister(raw);
    ciint.set_rxie(true);
    ciint.set_txie(true);
    if selection.can_errors {
        ciint.set_ivmie(true);
        ciint.set_cerrie(true);
        ciint.set_serrie(true);
    }
    if selection.spi_errors {
        ciint.set_spicrcie(true);
    }
    if selection.ecc_errors {
        ciint.set_eccie(true);
    }
    if selection.counter_overflow {
        ciint.set_tbcie(true);
    }
    ciint.0
}

/// Sets up a FIFO.
fn fifo_control(raw: u32, config: FifoConfiguration) -> (result: u32)
    ensures
        result == with_fifo(raw, config),
{
    let mut fifo_control = FifoControlRegister(raw);
    fifo_control.set_fifo_size(config.fifo_size);
    fifo_control.set_payload_size(config.payload_size);
    match config.mode {
        FifoMode::Transmit(tx) => {
            fifo_control.set_txen(true);
            fifo_control.set_txpri(tx.priority);
            fifo_control.set_retransmission_attempts(tx.retransmission_attempts);
            fifo_control.set_rtren(tx.enable_auto_rtr);
            fifo_control.set_txatie(tx.enable_transmit_attempts_exhausted_interrupt);
            fifo_control.set_tferffie(tx.enable_fifo_empty_interrupt);
            fifo_control.set_tfhrfhie(tx.enable_fifo_half_empty_interrupt);
            fifo_control.set_tfnrfnie(tx.enable_fifo_not_full_interrupt);
        },
        FifoMode::Receive(rx) => {
            fifo_control.set_txen(false);
            fifo_control.set_rxtsen(rx.enable_message_timestamps);
            fifo_control.set_rxovie(rx.enable_fifo_overflow_interrupt);
            fifo_control.set_tferffie(rx.enable_fifo_full_interrupt);
            fifo_control.set_tfhrfhie(rx.enable_fifo_half_full_interrupt);
            fifo_control.set_tfnrfnie(rx.enable_fifo_not_empty_interrupt);
        },
    }
    fifo_control.0
}

/// The lowest 21 bits of an extended identifier, as many as a word has besides a standard
/// identifier. The lowest 18 of them are the bits that its base identifier leaves over, which is
/// all that the extension field of a filter takes.
fn identifier_extension(raw: u32) -> (eid: u32)
    ensures
        eid == raw & 0x001F_FFFF,
        eid & ones(18) == raw & ones(18),
{
    let largest: u32 = largest_standard_identifier() as u32;
    proof {
        assert(!0x7FFu32 >> 11u32 == 0x001F_FFFF) by (bit_vector);
        assert((raw & 0x001F_FFFF) & ones(18) == raw & ones(18)) by (bit_vector);
    }
    raw & (!largest >> 11)
}

/// Sets the identifier that a filter compares with.
fn filter_object(raw: u32, config: FilterConfiguration) -> (result: u32)
    requires
        config.filter_bits.is_valid(),
    ensures
        result == with_filter_object(raw, config),
{
    let mut object = FilterObjectRegister(raw);
    match config.filter_bits {
        Id::Standard(sid) => {
            object.set_sid(sid);
            object.set_eid(0);
        },
        Id::Extended(id) => {
            object.set_sid(base_identifier(id));
            object.set_eid(identifier_extension(id));
        },
    }
    object.set_exide(
        match config.mode {
            FilterMatchMode::StandardOnly | FilterMatchMode::Both => false,
            FilterMatchMode::ExtendedOnly => true,
        },
    );
    object.0
}

/// Sets the identifier bits that a filter compares.
fn filter_mask(raw: u32, config: FilterConfiguration) -> (result: u32)
    requires
        config.mask_bits.is_valid(),
    ensures
        result == with_filter_mask(raw, config),
{
    let mut mask = MaskRegister(raw);
    match config.mask_bits {
        Id::Standard(sid) => {
            mask.set_msid(sid);
            mask.set_meid(0);
        },
        Id::Extended(id) => {
            mask.set_msid(base_identifier(id));
            mask.set_meid(identifier_extension(id));
        },
    }
    mask.set_mide(
        match config.mode {
            FilterMatchMode::Both => false,
            FilterMatchMode::StandardOnly | FilterMatchMode::ExtendedOnly => true,
        },
    );
    mask.0
}

/// Sets up the I/O pins.
pub fn io_control(raw: u32, io: IoConfiguration) -> (result: u32)
    ensures
        result == with_io(raw, io),
{
    let mut iocon = IoControlRegister(raw);
    iocon.set_xstbyen(io.enable_tx_standby_pin);
    iocon.set_txcanod(io.tx_can_open_drain);
    iocon.set_sof(io.start_of_frame_on_clko);
    iocon.set_intod(io.interrupt_pin_open_drain);
    iocon.0
}

/// An extended identifier can be recovered from a filter object or mask: the base identifier is
/// its upper 11 bits, the extension its lower 18 bits. A standard identifier stands in the base
/// identifier alone.
pub proof fn lemma_identifier_recovered(raw: u32, id: Id)
    requires
        id.is_valid(),
    ensures
        ({
            let written = with_identifier(raw, id);
            let sid = field(written, FLTOBJ_SID, 11);
            let eid = field(written, FLTOBJ_EID, 18);
            match id {
                Id::Standard(standard) => sid == standard && eid == 0,
                Id::Extended(extended) => (sid << 18) | eid == extended,
            }
        }),
{
    match id {
        Id::Standard(standard) => {
            let value = standard as u32;
            assert(field(with_field(with_field(raw, 0, 11, value), 11, 18, 0), 0, 11) == value
                && field(with_field(with_field(raw, 0, 11, value), 11, 18, 0), 11, 18) == 0)
                by (bit_vector)
                requires
                    value <= 0x7FF,
            ;
        },
        Id::Extended(extended) => {
            assert((field(
                with_field(with_field(raw, 0, 11, extended >> 18), 11, 18, extended),
                0,
                11,
            ) << 18) | field(
                with_field(with_field(raw, 0, 11, extended >> 18), 11, 18, extended),
                11,
                18,
            ) == extended) by (bit_vector)
                requires
                    extended <= 0x1FFF_FFFF,
            ;
        },
    }
}

/// A filter for standard frames alone, or for extended frames alone, compares the frame type with
/// the one it is for; a filter for both does not compare it.
pub proof fn lemma_filter_mode(object: u32, mask: u32, config: FilterConfiguration)
    ensures
        bit(with_filter_mask(mask, config), MASK_MIDE) <==> config.mode != FilterMatchMode::Both,
        bit(with_filter_object(object, config), FLTOBJ_EXIDE) <==> config.mode
            == FilterMatchMode::ExtendedOnly,
{
    lemma_bit_reads_back(
        with_identifier(mask, config.mask_bits),
        MASK_MIDE,
        !(config.mode is Both),
    );
    lemma_bit_reads_back(
        with_identifier(object, config.filter_bits),
        FLTOBJ_EXIDE,
        config.mode is ExtendedOnly,
    );
}

} // verus!
