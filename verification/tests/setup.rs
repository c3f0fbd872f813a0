use mcp2518fd::memory::controller::configuration::OperationMode;
use mcp2518fd::memory::controller::fifo::{FifoNumber, PayloadSize, RetransmissionAttempts};
use mcp2518fd::memory::controller::filter::FilterNumber;
use mcp2518fd::memory::{is_valid_ram_address, SFRAddress};
use mcp2518fd::message::len_for_dlc;
use mcp2518fd::settings::{
    BitTimeConfiguration, DataBitTimeConfiguration, FifoConfiguration, FifoMode,
    FilterConfiguration, FilterMatchMode, Id, IoConfiguration, Limited,
    NominalBitTimeConfiguration, OscillatorConfiguration, Pll, RxFifoConfiguration, Settings,
    SysClkDivider, TimeBaseCounterConfiguration, TxEventFifoConfiguration, TxFifoConfiguration,
    TxQueueConfiguration,
};
use mcp2518fd::spi::operation::{Action, Operation};
use mcp2518fd::spi::transfer::{Access, Progress, Reply};
use mcp2518fd::spi::{ConfigError, Error, MCP2518FD};

/// A device that performs accesses, with a hook that is called before each of them.
struct Device {
    memory: Vec<u8>,
    accesses: Vec<String>,
    pauses: Vec<u32>,
    resets: usize,
    hook: Box<dyn FnMut(&mut Vec<u8>, usize)>,
    failing: Vec<usize>,
}

fn load(memory: &[u8], address: SFRAddress) -> u32 {
    let start = address.to_address() as usize;
    u32::from_le_bytes(memory[start..start + 4].try_into().unwrap())
}

fn store(memory: &mut [u8], address: SFRAddress, value: u32) {
    let start = address.to_address() as usize;
    memory[start..start + 4].copy_from_slice(&value.to_le_bytes());
}

/// Makes the current mode follow the requested one.
fn follow_mode(memory: &mut Vec<u8>) {
    let con = load(memory, SFRAddress::C1CON);
    let requested = (con >> 24) & 7;
    store(memory, SFRAddress::C1CON, (con & !(7 << 21)) | (requested << 21));
}

impl Device {
    fn new() -> Self {
        Device {
            memory: vec![0; 0x1000],
            accesses: Vec::new(),
            pauses: Vec::new(),
            resets: 0,
            hook: Box::new(|_, _| {}),
            failing: Vec::new(),
        }
    }

    fn perform(&mut self, access: Access<Vec<u8>>) -> Reply<Vec<u8>> {
        let count = self.accesses.len();
        self.accesses.push(format!("{:?}", access));
        (self.hook)(&mut self.memory, count);
        let fails = self.failing.contains(&count);
        match access {
            Access::ReadSfr(address) | Access::ReadSfrCrc(address) => {
                if fails {
                    Reply::Failed(Error::SPIRead)
                } else {
                    Reply::Word(load(&self.memory, address))
                }
            }
            Access::WriteSfr(address, value) => {
                store(&mut self.memory, address, value);
                Reply::Done
            }
            Access::WriteSfrByte(address, offset, value) => {
                self.memory[address.to_address() as usize + offset as usize] = value;
                Reply::Done
            }
            Access::ReadRam(address, length) => {
                let start = address as usize;
                Reply::Bytes(self.memory[start..start + length].to_vec())
            }
            Access::WriteRam(address, data) => {
                let start = address as usize;
                self.memory[start..start + data.len()].copy_from_slice(&data);
                Reply::Done
            }
            Access::Reset => {
                if fails {
                    return Reply::Failed(Error::SPIWrite);
                }
                self.resets += 1;
                Reply::Done
            }
        }
    }

    fn run<O: Operation>(&mut self, operation: O) -> O::Output {
        let mut operation = operation;
        loop {
            let reply = match operation.action() {
                Action::Access(access) => self.perform(access),
                Action::Delay(us) => {
                    self.pauses.push(us);
                    Reply::Done
                }
            };
            match operation.resume(reply) {
                Progress::Running(next) => operation = next,
                Progress::Finished(output) => return output,
            }
        }
    }

    fn get(&self, address: SFRAddress) -> u32 {
        load(&self.memory, address)
    }

    fn set(&mut self, address: SFRAddress, value: u32) {
        store(&mut self.memory, address, value);
    }
}

fn driver() -> MCP2518FD<()> {
    MCP2518FD::new(())
}

#[test]
fn a_mode_is_requested_and_awaited() {
    let mut device = Device::new();
    device.set(SFRAddress::C1CON, 0x0498_0760);
    // The mode changes before the fifth access, which is the third poll.
    device.hook = Box::new(|memory, count| {
        if count == 4 {
            follow_mode(memory);
        }
    });
    assert_eq!(device.run(driver().set_op_mode(OperationMode::NormalCan20)), Ok(()));
    assert_eq!(device.get(SFRAddress::C1CON), 0x06D8_0760);
    assert_eq!(device.accesses.len(), 5);
    assert_eq!(device.pauses, [200, 200]);
}

#[test]
fn waiting_for_a_mode_ends_after_100_ms() {
    let mut device = Device::new();
    assert_eq!(
        device.run(driver().set_op_mode(OperationMode::Configuration)),
        Err(ConfigError::ChangeOpModeTimeout)
    );
    assert_eq!(device.accesses.len(), 2 + 500);
    assert_eq!(device.pauses.len(), 499);
    assert!(device.pauses.iter().sum::<u32>() <= 100_000);

    // The last attempt still counts.
    let mut device = Device::new();
    device.hook = Box::new(|memory, count| {
        if count == 2 + 499 {
            follow_mode(memory);
        }
    });
    assert_eq!(device.run(driver().set_op_mode(OperationMode::Configuration)), Ok(()));
    assert_eq!(device.pauses.len(), 499);

    let mut device = Device::new();
    device.failing = vec![3];
    assert_eq!(
        device.run(driver().set_op_mode(OperationMode::Configuration)),
        Err(ConfigError::ConfigurationModeTimeout)
    );
}

#[test]
fn a_reset_ends_in_configuration_mode() {
    let mut device = Device::new();
    device.hook = Box::new(|memory, count| {
        follow_mode(memory);
        // The oscillator is ready at the second attempt after the reset.
        if count == 6 {
            store(memory, SFRAddress::OSC, 0x460);
        }
    });
    assert_eq!(device.run(driver().reset()), Ok(()));
    assert_eq!(device.resets, 1);
    assert_eq!(
        device.accesses,
        [
            "WriteSfr(OSC, 96)",
            "ReadSfr(C1CON)",
            "WriteSfr(C1CON, 67108864)",
            "ReadSfr(C1CON)",
            "Reset",
            "ReadSfr(OSC)",
            "ReadSfr(OSC)",
            "ReadSfr(C1CON)",
        ]
    );
    assert_eq!(device.pauses, [500]);
}

#[test]
fn a_reset_goes_on_without_configuration_mode() {
    // The mode is never reached before the reset, but after it.
    let mut device = Device::new();
    device.hook = Box::new(|memory, count| {
        if count > 503 {
            follow_mode(memory);
            store(memory, SFRAddress::OSC, 0x460);
        }
    });
    assert_eq!(device.run(driver().reset()), Ok(()));
    assert_eq!(device.resets, 1);
    assert_eq!(device.accesses.len(), 1 + 2 + 500 + 1 + 2);

    // Even a failing read does not stop it.
    let mut device = Device::new();
    device.failing = vec![1];
    device.hook = Box::new(|memory, _| {
        store(memory, SFRAddress::OSC, 0x460);
        store(memory, SFRAddress::C1CON, 4 << 21);
    });
    assert_eq!(device.run(driver().reset()), Ok(()));
    assert_eq!(device.accesses.len(), 5);
}

#[test]
fn a_reset_times_out_after_30_ms() {
    // The oscillator never gets ready.
    let mut device = Device::new();
    device.hook = Box::new(|memory, _| follow_mode(memory));
    assert_eq!(device.run(driver().reset()), Err(ConfigError::ConfigurationModeTimeout));
    assert_eq!(device.accesses.len(), 5 + 60);
    assert_eq!(device.pauses, vec![500; 59]);

    // The oscillator is ready, but the device is in another mode.
    let mut device = Device::new();
    device.hook = Box::new(|memory, _| store(memory, SFRAddress::OSC, 0x460));
    device.failing = vec![1];
    assert_eq!(device.run(driver().reset()), Err(ConfigError::ConfigurationModeTimeout));
    assert_eq!(device.accesses.len(), 3 + 120);

    // The RESET instruction cannot be sent.
    let mut device = Device::new();
    device.failing = vec![1, 2];
    assert_eq!(device.run(driver().reset()), Err(ConfigError::ConfigurationModeTimeout));
    assert_eq!(device.resets, 0);
}

#[test]
fn the_clock_is_set_up() {
    let mut device = Device::new();
    device.set(SFRAddress::OSC, 0x464);
    let off = OscillatorConfiguration { pll: Pll::Off, divider: SysClkDivider::DivByTwo };
    assert_eq!(device.run(driver().configure_osc(off)), Ok(()));
    assert_eq!(device.get(SFRAddress::OSC), 0x470);
    assert_eq!(device.accesses.len(), 2);

    let on = OscillatorConfiguration { pll: Pll::On, divider: SysClkDivider::DivByOne };
    device.set(SFRAddress::OSC, 0x470);
    device.hook = Box::new(|memory, count| {
        if count == 6 {
            store(memory, SFRAddress::OSC, 0x561);
        }
    });
    assert_eq!(device.run(driver().configure_osc(on)), Ok(()));
    assert_eq!(device.accesses[3], "WriteSfr(OSC, 1121)");
    assert_eq!(device.pauses, [500, 500]);

    let mut device = Device::new();
    assert_eq!(device.run(driver().configure_osc(on)), Err(ConfigError::PLLNotReady));
    assert_eq!(device.accesses.len(), 2 + 60);
    assert_eq!(device.pauses, vec![500; 59]);
}

fn limited<const MAX: u8>(value: u8) -> Limited<MAX> {
    Limited::new(value).unwrap()
}

fn bit_timing() -> BitTimeConfiguration {
    BitTimeConfiguration {
        nominal: NominalBitTimeConfiguration {
            baud_rate_prescaler: 1,
            time_segment_1: 0x3E,
            time_segment_2: limited(0x0F),
            synchronization_jump_width: limited(0x7F),
        },
        data: DataBitTimeConfiguration {
            baud_rate_prescaler: 2,
            time_segment_1: limited(0x1F),
            time_segment_2: limited(3),
            synchronization_jump_width: limited(4),
            transmitter_delay_compensation_offset: limited(0x0F),
        },
    }
}

fn settings() -> Settings {
    Settings {
        oscillator: OscillatorConfiguration { pll: Pll::Off, divider: SysClkDivider::DivByOne },
        io_configuration: IoConfiguration {
            enable_tx_standby_pin: true,
            tx_can_open_drain: false,
            start_of_frame_on_clko: true,
            interrupt_pin_open_drain: false,
        },
        bit_time_configuration: bit_timing(),
        tx_event_fifo: None,
        tx_queue: None,
        time_base_counter: None,
        data_bits_to_match: None,
        enable_can_error_interrupts: false,
        enable_spi_error_interrupt: false,
        enable_ecc_error_interrupt: false,
    }
}

#[test]
fn numbers_are_limited() {
    assert_eq!(Limited::<127>::new(127).unwrap().value(), 127);
    assert!(Limited::<127>::new(128).is_none());
    assert_eq!(Limited::<15>::new(0).unwrap().value(), 0);
}

#[test]
fn bit_timing_fills_three_registers() {
    let mut device = Device::new();
    device.set(SFRAddress::C1TDC, 0x0200_003F);
    assert_eq!(device.run(driver().configure_bit_timing(bit_timing())), Ok(()));
    assert_eq!(device.get(SFRAddress::C1NBTCFG), 0x013E_0F7F);
    assert_eq!(device.get(SFRAddress::C1DBTCFG), 0x021F_0304);
    assert_eq!(device.get(SFRAddress::C1TDC), 0x0202_0F00);
}

#[test]
fn io_pins_are_set_up_without_their_status() {
    let mut device = Device::new();
    device.set(SFRAddress::IOCON, 0x5303_0003);
    assert_eq!(device.run(driver().configure_io(settings().io_configuration)), Ok(()));
    assert_eq!(device.get(SFRAddress::IOCON), 0x2303_0043);
    assert_eq!(
        device.accesses,
        [
            "ReadSfr(IOCON)",
            "WriteSfrByte(IOCON, 0, 67)",
            "WriteSfrByte(IOCON, 1, 0)",
            "WriteSfrByte(IOCON, 3, 35)",
        ]
    );
}

fn event_fifo(fifo_size: u8) -> TxEventFifoConfiguration {
    TxEventFifoConfiguration {
        fifo_size,
        enable_timestamps: true,
        enable_fifo_overflow_interrupt: true,
        enable_fifo_full_interrupt: false,
        enable_fifo_half_full_interrupt: false,
        enable_fifo_not_empty_interrupt: true,
    }
}

#[test]
fn the_event_fifo_is_enabled_and_disabled() {
    let mut device = Device::new();
    assert_eq!(device.run(driver().configure_tx_event_fifo(Some(event_fifo(5)))), Ok(()));
    assert_eq!(device.get(SFRAddress::C1CON), 1 << 19);
    assert_eq!(device.get(SFRAddress::C1TEFCON), 0x0400_0029);
    assert_eq!(device.run(driver().configure_tx_event_fifo(None)), Ok(()));
    assert_eq!(device.get(SFRAddress::C1CON), 0);
    assert_eq!(device.get(SFRAddress::C1TEFCON), 0x0400_0029);
}

#[test]
fn fifo_sizes_are_clamped_to_32() {
    for (size, field) in [(1u8, 0u32), (32, 31), (0, 31), (33, 31), (255, 31)] {
        let mut device = Device::new();
        assert_eq!(device.run(driver().configure_tx_event_fifo(Some(event_fifo(size)))), Ok(()));
        assert_eq!(device.get(SFRAddress::C1TEFCON) >> 24, field);
    }
}

fn queue() -> TxQueueConfiguration {
    TxQueueConfiguration {
        retransmission_attempts: RetransmissionAttempts::Three,
        message_priority: 31,
        fifo_size: 8,
        payload_size: PayloadSize::Bytes64,
        enable_transmit_attempts_exhausted_interrupt: true,
        enable_queue_empty_interrupt: false,
        enable_queue_not_full_interrupt: true,
    }
}

#[test]
fn the_queue_is_enabled_and_disabled() {
    let mut device = Device::new();
    assert_eq!(device.run(driver().configure_tx_queue(Some(queue()))), Ok(()));
    assert_eq!(device.get(SFRAddress::C1CON), 1 << 20);
    assert_eq!(device.get(SFRAddress::C1TXQCON), 0xE73F_0011);
    assert_eq!(device.run(driver().configure_tx_queue(None)), Ok(()));
    assert_eq!(device.get(SFRAddress::C1CON), 0);
}

#[test]
fn a_fifo_is_set_up_to_transmit_or_receive() {
    let mut device = Device::new();
    let transmit = FifoConfiguration {
        fifo_size: 16,
        payload_size: PayloadSize::Bytes8,
        mode: FifoMode::Transmit(TxFifoConfiguration {
            priority: 3,
            retransmission_attempts: RetransmissionAttempts::Unlimited,
            enable_auto_rtr: true,
            enable_transmit_attempts_exhausted_interrupt: false,
            enable_fifo_empty_interrupt: true,
            enable_fifo_half_empty_interrupt: false,
            enable_fifo_not_full_interrupt: false,
        }),
    };
    assert_eq!(device.run(driver().configure_fifo(FifoNumber::Fifo7, transmit)), Ok(()));
    let control = device.get(SFRAddress::C1FIFOCON(FifoNumber::Fifo7));
    assert_eq!(control & !(3 << 21), 0x0F03_00C4);

    let receive = FifoConfiguration {
        fifo_size: 32,
        payload_size: PayloadSize::Bytes20,
        mode: FifoMode::Receive(RxFifoConfiguration {
            enable_message_timestamps: true,
            enable_fifo_overflow_interrupt: true,
            enable_fifo_full_interrupt: false,
            enable_fifo_half_full_interrupt: true,
            enable_fifo_not_empty_interrupt: true,
        }),
    };
    device.set(SFRAddress::C1FIFOCON(FifoNumber::Fifo8), 0x80);
    assert_eq!(device.run(driver().configure_fifo(FifoNumber::Fifo8, receive)), Ok(()));
    assert_eq!(device.get(SFRAddress::C1FIFOCON(FifoNumber::Fifo8)), 0x7F00_002B);
    assert_eq!(device.get(SFRAddress::C1FIFOCON(FifoNumber::Fifo7)), control);
}

fn filter(mode: FilterMatchMode, filter_bits: Id, mask_bits: Id) -> FilterConfiguration {
    FilterConfiguration { buffer_pointer: FifoNumber::Fifo5, mode, filter_bits, mask_bits }
}

#[test]
fn a_filter_for_standard_frames() {
    let mut device = Device::new();
    let number = FilterNumber::Filter6;
    device.set(SFRAddress::C1FLTCON(number.get_control_register().0), 0x9F9F_9F9F);
    device.set(SFRAddress::C1FLTOBJ(number), 0xFFFF_FFFF);
    let config = filter(FilterMatchMode::StandardOnly, Id::Standard(0x123), Id::Standard(0x7FF));
    assert_eq!(device.run(driver().configure_filter(number, Some(config))), Ok(()));
    // The extension bits are 0, and the frame type is compared.
    assert_eq!(device.get(SFRAddress::C1FLTOBJ(number)), 0xA000_0123);
    assert_eq!(device.get(SFRAddress::C1MASK(number)), 0x4000_07FF);
    // Filter 6 is in byte 2 of the second control register.
    assert_eq!(device.get(SFRAddress::C1FLTCON(number.get_control_register().0)), 0x9F85_9F9F);
    assert_eq!(device.memory[0x1D4..0x1D8], [0x9F, 0x9F, 0x85, 0x9F]);
    // It was disabled first, and enabled last.
    assert_eq!(device.accesses[1], format!("WriteSfr(C1FLTCON(Control1), {})", 0x9F1F_9F9Fu32));
    assert!(device.accesses[3].starts_with("WriteSfr(C1FLTOBJ(Filter6)"));
    assert!(device.accesses[5].starts_with("WriteSfr(C1MASK(Filter6)"));
    assert!(device.accesses[7].starts_with("WriteSfr(C1FLTCON(Control1)"));
}

#[test]
fn a_filter_for_extended_frames() {
    let mut device = Device::new();
    let number = FilterNumber::Filter31;
    let id = Id::Extended(0x1ABC_DEF1);
    let config = filter(FilterMatchMode::ExtendedOnly, id, Id::Extended(0x1FFF_FFFF));
    assert_eq!(device.run(driver().configure_filter(number, Some(config))), Ok(()));
    // The base identifier 0x6AF is the upper 11 bits, the extension 0x0DEF1 the lower 18 bits.
    assert_eq!(
        device.get(SFRAddress::C1FLTOBJ(number)),
        1 << 30 | 0x0_DEF1 << 11 | 0x6AF
    );
    assert_eq!(device.get(SFRAddress::C1MASK(number)), 0x5FFF_FFFF);

    let config = filter(FilterMatchMode::Both, id, Id::Standard(0));
    assert_eq!(device.run(driver().configure_filter(number, Some(config))), Ok(()));
    assert_eq!(device.get(SFRAddress::C1FLTOBJ(number)), 0x0_DEF1 << 11 | 0x6AF);
    assert_eq!(device.get(SFRAddress::C1MASK(number)), 0);
}

#[test]
fn a_filter_is_removed() {
    let mut device = Device::new();
    let number = FilterNumber::Filter0;
    device.memory[0x1D0..0x1D4].copy_from_slice(&[0x81, 0x82, 0x83, 0x84]);
    assert_eq!(device.run(driver().configure_filter(number, None)), Ok(()));
    assert_eq!(device.memory[0x1D0..0x1D4], [0x01, 0x82, 0x83, 0x84]);
    assert_eq!(device.accesses.len(), 2);
}

#[test]
fn everything_is_configured() {
    let mut device = Device::new();
    device.set(SFRAddress::C1CON, 0x0000_0760);
    device.set(SFRAddress::C1TSCON, 0);
    device.set(SFRAddress::IOCON, 0x0300_0003);
    device.hook = Box::new(|memory, _| follow_mode(memory));
    let settings = Settings {
        tx_event_fifo: Some(event_fifo(4)),
        tx_queue: Some(queue()),
        time_base_counter: Some(TimeBaseCounterConfiguration {
            prescaler: 2000,
            overflow_interrupt: true,
        }),
        data_bits_to_match: Some(18),
        enable_can_error_interrupts: true,
        enable_spi_error_interrupt: true,
        enable_ecc_error_interrupt: true,
        ..settings()
    };
    assert_eq!(device.run(driver().configure(settings)), Ok(()));
    // DNCNT 18, RTXAT, STEF, TXQEN, and both mode fields.
    assert_eq!(device.get(SFRAddress::C1CON), 0x0499_0772);
    assert_eq!(device.get(SFRAddress::C1NBTCFG), 0x013E_0F7F);
    assert_eq!(device.get(SFRAddress::C1TEFCON), 0x0300_0029);
    assert_eq!(device.get(SFRAddress::C1TXQCON), 0xE73F_0011);
    // The prescaler stops at 1023.
    assert_eq!(device.get(SFRAddress::C1TSCON), 0x0001_03FF);
    assert_eq!(device.get(SFRAddress::C1INT), 0xB307_0000);
    assert_eq!(device.get(SFRAddress::IOCON), 0x2300_0043);
}

#[test]
fn no_data_bits_are_the_same_as_none() {
    let with = |data_bits_to_match| {
        let mut device = Device::new();
        device.set(SFRAddress::C1CON, 0x0480_0005);
        let settings = Settings { data_bits_to_match, ..settings() };
        assert_eq!(device.run(driver().configure(settings)), Ok(()));
        (device.memory, device.accesses)
    };
    assert_eq!(with(Some(0)), with(None));
    assert_eq!(with(None).0[0], 5);
    assert_eq!(with(Some(7)).0[0], 7);
}

#[test]
fn interrupts_are_only_ever_enabled() {
    let mut device = Device::new();
    device.set(SFRAddress::C1CON, 4 << 21);
    device.set(SFRAddress::C1INT, 0x8000_0000);
    assert_eq!(device.run(driver().configure(settings())), Ok(()));
    assert_eq!(device.get(SFRAddress::C1INT), 0x8003_0000);
    assert_eq!(device.get(SFRAddress::C1TSCON), 0);
}

#[test]
fn configuration_needs_its_mode_and_a_connection() {
    let mut device = Device::new();
    assert_eq!(
        device.run(driver().configure(settings())),
        Err(ConfigError::ConfigurationModeTimeout)
    );
    let mut device = Device::new();
    device.hook = Box::new(|memory, _| {
        follow_mode(memory);
        memory[0x400] = 0;
    });
    assert_eq!(
        device.run(driver().configure(settings())),
        Err(ConfigError::SPIFailedRAMEcho)
    );
    let mut device = Device::new();
    device.hook = Box::new(|memory, _| follow_mode(memory));
    let settings = Settings {
        oscillator: OscillatorConfiguration { pll: Pll::On, divider: SysClkDivider::DivByOne },
        ..settings()
    };
    assert_eq!(device.run(driver().configure(settings)), Err(ConfigError::PLLNotReady));
}

#[test]
fn registers_have_the_addresses_of_the_datasheet() {
    assert_eq!(SFRAddress::C1CON.to_address(), 0x000);
    assert_eq!(SFRAddress::C1TBC.to_address(), 0x010);
    assert_eq!(SFRAddress::C1INT.to_address(), 0x01C);
    assert_eq!(SFRAddress::C1TEFCON.to_address(), 0x040);
    assert_eq!(SFRAddress::C1TXQUA.to_address(), 0x058);
    assert_eq!(SFRAddress::C1FIFOCON(FifoNumber::Fifo1).to_address(), 0x05C);
    assert_eq!(SFRAddress::C1FIFOUA(FifoNumber::Fifo31).to_address(), 0x1CC);
    assert_eq!(SFRAddress::C1FLTOBJ(FilterNumber::Filter0).to_address(), 0x1F0);
    assert_eq!(SFRAddress::C1MASK(FilterNumber::Filter31).to_address(), 0x2EC);
    assert_eq!(SFRAddress::OSC.to_address(), 0xE00);
    assert_eq!(SFRAddress::IOCON.to_address(), 0xE04);
}

#[test]
fn ram_is_2_kib() {
    assert!(is_valid_ram_address(0x400, 2048));
    assert!(!is_valid_ram_address(0x400, 2049));
    assert!(!is_valid_ram_address(0x3FF, 1));
    assert!(is_valid_ram_address(0xBFF, 1));
    assert!(!is_valid_ram_address(0xC00, 0));
    assert!(!is_valid_ram_address(0x400, usize::MAX));
}

#[test]
fn data_length_codes() {
    for dlc in 0..=8u8 {
        assert_eq!(len_for_dlc(dlc, false), Some(dlc as usize));
        assert_eq!(len_for_dlc(dlc, true), Some(dlc as usize));
    }
    let lengths = [12, 16, 20, 24, 32, 48, 64];
    for (dlc, length) in (9..=15u8).zip(lengths) {
        assert_eq!(len_for_dlc(dlc, true), Some(length));
        assert_eq!(len_for_dlc(dlc, false), Some(8));
    }
    assert_eq!(len_for_dlc(16, true), None);
}
