//! Settings of the device, its FIFOs and its filters.

use vstd::prelude::*;

use crate::memory::controller::fifo::{FifoNumber, PayloadSize, RetransmissionAttempts};

verus! {

/// A number from 0 to `MAX`.
#[derive(Clone, Copy, Debug)]
pub struct Limited<const MAX: u8> {
    value: u8,
}

impl<const MAX: u8> View for Limited<MAX> {
    type V = u8;

    closed spec fn view(&self) -> u8 {
        self.value
    }
}

impl<const MAX: u8> Limited<MAX> {
    #[verifier::type_invariant]
    spec fn within_limit(self) -> bool {
        self.value <= MAX
    }

    /// The number `value`, if it is not above the limit.
    pub fn new(value: u8) -> (limited: Option<Self>)
        ensures
            match limited {
                Some(number) => value <= MAX && number@ == value,
                None => value > MAX,
            },
    {
        if value <= MAX {
            Some(Limited { value })
        } else {
            None
        }
    }

    /// The number.
    pub fn value(&self) -> (value: u8)
        ensures
            value == self@,
            value <= MAX,
    {
        proof {
            use_type_invariant(self);
        }
        self.value
    }
}

/// A message identifier: 11 bits in standard frames, 29 bits in extended frames.
#[derive(Clone, Copy, Debug, PartialEq, Eq, Structural)]
pub enum Id {
    Standard(u16),
    Extended(u32),
}

impl Id {
    /// The identifier has no more bits than its frames can carry.
    pub open spec fn is_valid(self) -> bool {
        match self {
            Id::Standard(raw) => raw <= 0x7FF,
            Id::Extended(raw) => raw <= 0x1FFF_FFFF,
        }
    }
}

/// Whether the system clock is multiplied by the PLL.
#[derive(Clone, Copy, Debug, PartialEq, Eq, Structural)]
pub enum Pll {
    On,
    Off,
}

/// How the system clock is divided.
#[derive(Clone, Copy, Debug, PartialEq, Eq, Structural)]
pub enum SysClkDivider {
    DivByOne,
    DivByTwo,
}

/// The oscillator.
#[derive(Clone, Copy, Debug)]
pub struct OscillatorConfiguration {
    pub pll: Pll,
    pub divider: SysClkDivider,
}

/// The I/O pins.
#[derive(Clone, Copy, Debug)]
pub struct IoConfiguration {
    pub enable_tx_standby_pin: bool,
    pub tx_can_open_drain: bool,
    pub start_of_frame_on_clko: bool,
    pub interrupt_pin_open_drain: bool,
}

/// Bit timing of the arbitration phase.
#[derive(Clone, Copy, Debug)]
pub struct NominalBitTimeConfiguration {
    pub baud_rate_prescaler: u8,
    pub time_segment_1: u8,
    pub time_segment_2: Limited<127>,
    pub synchronization_jump_width: Limited<127>,
}

/// Bit timing of the data phase.
#[derive(Clone, Copy, Debug)]
pub struct DataBitTimeConfiguration {
    pub baud_rate_prescaler: u8,
    pub time_segment_1: Limited<31>,
    pub time_segment_2: Limited<15>,
    pub synchronization_jump_width: Limited<15>,
    pub transmitter_delay_compensation_offset: Limited<127>,
}

/// Bit timing of both phases.
#[derive(Clone, Copy, Debug)]
pub struct BitTimeConfiguration {
    pub nominal: NominalBitTimeConfiguration,
    pub data: DataBitTimeConfiguration,
}

/// The transmit event FIFO.
#[derive(Clone, Copy, Debug)]
pub struct TxEventFifoConfiguration {
    /// Number of events, from 1 to 32; any other number counts as 32.
    pub fifo_size: u8,
    pub enable_timestamps: bool,
    pub enable_fifo_overflow_interrupt: bool,
    pub enable_fifo_full_interrupt: bool,
    pub enable_fifo_half_full_interrupt: bool,
    pub enable_fifo_not_empty_interrupt: bool,
}

/// The transmit queue.
#[derive(Clone, Copy, Debug)]
pub struct TxQueueConfiguration {
    pub retransmission_attempts: RetransmissionAttempts,
    /// Priority of the messages; only the low five bits count.
    pub message_priority: u8,
    /// Number of messages, from 1 to 32; any other number counts as 32.
    pub fifo_size: u8,
    pub payload_size: PayloadSize,
    pub enable_transmit_attempts_exhausted_interrupt: bool,
    pub enable_queue_empty_interrupt: bool,
    pub enable_queue_not_full_interrupt: bool,
}

/// A FIFO that transmits.
#[derive(Clone, Copy, Debug)]
pub struct TxFifoConfiguration {
    /// Priority of the messages; only the low five bits count.
    pub priority: u8,
    pub retransmission_attempts: RetransmissionAttempts,
    pub enable_auto_rtr: bool,
    pub enable_transmit_attempts_exhausted_interrupt: bool,
    pub enable_fifo_empty_interrupt: bool,
    pub enable_fifo_half_empty_interrupt: bool,
    pub enable_fifo_not_full_interrupt: bool,
}

/// A FIFO that receives.
#[derive(Clone, Copy, Debug)]
pub struct RxFifoConfiguration {
    pub enable_message_timestamps: bool,
    pub enable_fifo_overflow_interrupt: bool,
    pub enable_fifo_full_interrupt: bool,
    pub enable_fifo_half_full_interrupt: bool,
    pub enable_fifo_not_empty_interrupt: bool,
}

/// What a FIFO is dedicated to.
#[derive(Clone, Copy, Debug)]
pub enum FifoMode {
    Transmit(TxFifoConfiguration),
    Receive(RxFifoConfiguration),
}

/// A FIFO.
#[derive(Clone, Copy, Debug)]
pub struct FifoConfiguration {
    /// Number of messages, from 1 to 32; any other number counts as 32.
    pub fifo_size: u8,
    pub payload_size: PayloadSize,
    pub mode: FifoMode,
}

/// Which frames a filter accepts.
#[derive(Clone, Copy, Debug, PartialEq, Eq, Structural)]
pub enum FilterMatchMode {
    StandardOnly,
    ExtendedOnly,
    Both,
}

/// An acceptance filter.
#[derive(Clone, Copy, Debug)]
pub struct FilterConfiguration {
    /// The FIFO that receives what the filter accepts.
    pub buffer_pointer: FifoNumber,
    pub mode: FilterMatchMode,
    /// The identifier to compare with.
    pub filter_bits: Id,
    /// The bits of the identifier to compare.
    pub mask_bits: Id,
}

impl FilterConfiguration {
    /// Both identifiers have no more bits than their frames can carry.
    pub open spec fn is_valid(self) -> bool {
        self.filter_bits.is_valid() && self.mask_bits.is_valid()
    }
}

/// Largest prescaler of the time base counter.
pub const MAX_PRESCALER: u16 = 1023;

/// The time base counter behind the timestamps.
#[derive(Clone, Copy, Debug)]
pub struct TimeBaseCounterConfiguration {
    /// Clock cycles per count, less one; anything above 1023 counts as 1023.
    pub prescaler: u16,
    pub overflow_interrupt: bool,
}

/// All settings of the device except its FIFOs and filters.
#[derive(Clone, Copy, Debug)]
pub struct Settings {
    pub oscillator: OscillatorConfiguration,
    pub io_configuration: IoConfiguration,
    pub bit_time_configuration: BitTimeConfiguration,
    pub tx_event_fifo: Option<TxEventFifoConfiguration>,
    pub tx_queue: Option<TxQueueConfiguration>,
    pub time_base_counter: Option<TimeBaseCounterConfiguration>,
    /// Number of data bits, from 1 to 18, that filters compare in standard frames; `Some(0)`
    /// means the same as `None`.
    pub data_bits_to_match: Option<u8>,
    pub enable_can_error_interrupts: bool,
    pub enable_spi_error_interrupt: bool,
    pub enable_ecc_error_interrupt: bool,
}

} // verus!
