use mcp2518fd::memory::chip::{IoControlRegister, OscillatorControlRegister};
use mcp2518fd::memory::controller::configuration::{CanControlRegister, OperationMode};
use mcp2518fd::memory::controller::fifo::{FifoNumber, FifoStatusRegister};
use mcp2518fd::memory::controller::interrupt::InterruptRegister;
use mcp2518fd::memory::SFRAddress;
use mcp2518fd::message::tx::{TxHeader, TxMessage};
use mcp2518fd::spi::operation::{Action, Operation};
use mcp2518fd::spi::transfer::{Access, Progress, Reply, SpiReply, SpiRequest};
use mcp2518fd::spi::{ConfigError, Error, MCP2518FD};

/// A device whose memory changes through SPI, and through a hook that is called before each
/// transaction with the transactions so far.
struct Device {
    memory: Vec<u8>,
    sent: Vec<Vec<u8>>,
    pauses: Vec<u32>,
    hook: Box<dyn FnMut(&mut Vec<u8>, usize)>,
    /// Transactions that fail.
    failing: Vec<usize>,
    /// Reads whose checksum is wrong.
    corrupted: Vec<usize>,
}

fn checksum(header: &[u8], data: &[u8]) -> Vec<u8> {
    let crc = crc::Crc::<u16>::new(&crc::CRC_16_CMS);
    let mut digest = crc.digest();
    digest.update(header);
    digest.update(data);
    digest.finalize().to_be_bytes().to_vec()
}

impl Device {
    fn new() -> Self {
        Device {
            memory: vec![0; 0x1000],
            sent: Vec::new(),
            pauses: Vec::new(),
            hook: Box::new(|_, _| {}),
            failing: Vec::new(),
            corrupted: Vec::new(),
        }
    }

    fn set(&mut self, address: SFRAddress, value: u32) {
        let start = address.to_address() as usize;
        self.memory[start..start + 4].copy_from_slice(&value.to_le_bytes());
    }

    fn get(&self, address: SFRAddress) -> u32 {
        let start = address.to_address() as usize;
        u32::from_le_bytes(self.memory[start..start + 4].try_into().unwrap())
    }

    fn execute(&mut self, request: SpiRequest<Vec<u8>>) -> SpiReply<Vec<u8>> {
        let count = self.sent.len();
        (self.hook)(&mut self.memory, count);
        match request {
            SpiRequest::Command(header) => {
                self.sent.push(header);
                if self.failing.contains(&count) {
                    return SpiReply::Failed;
                }
                SpiReply::Written
            }
            SpiRequest::Write { header, data, crc } => {
                let mut frame = header.clone();
                frame.extend(&data);
                frame.extend(crc.iter().flatten());
                self.sent.push(frame);
                if self.failing.contains(&count) {
                    return SpiReply::Failed;
                }
                if let Some(crc) = crc {
                    assert_eq!(crc, checksum(&header, &data));
                }
                let address = (header[0] as usize % 16) * 0x100 + header[1] as usize;
                self.memory[address..address + data.len()].copy_from_slice(&data);
                SpiReply::Written
            }
            SpiRequest::Read { header, length, checked } => {
                self.sent.push(header.clone());
                if self.failing.contains(&count) {
                    return SpiReply::Failed;
                }
                let address = (header[0] as usize % 16) * 0x100 + header[1] as usize;
                let data = self.memory[address..address + length].to_vec();
                let mut crc = Vec::new();
                if checked {
                    crc = checksum(&header, &data);
                }
                if self.corrupted.contains(&count) {
                    crc[0] ^= 1;
                }
                SpiReply::Read { data, crc }
            }
        }
    }

    fn perform(&mut self, driver: &MCP2518FD<()>, access: Access<Vec<u8>>) -> Reply<Vec<u8>> {
        let mut progress = driver.begin(access);
        loop {
            progress = match progress {
                Progress::Finished(reply) => return reply,
                Progress::Running(transfer) => {
                    let reply = self.execute(transfer.request());
                    transfer.resume(reply)
                }
            };
        }
    }

    fn run<O: Operation>(&mut self, driver: &MCP2518FD<()>, operation: O) -> O::Output {
        let mut operation = operation;
        loop {
            let reply = match operation.action() {
                Action::Access(access) => self.perform(driver, access),
                Action::Delay(us) => {
                    self.pauses.push(us);
                    Reply::Done
                }
            };
            match operation.resume(reply) {
                Progress::Running(next) => operation = next,
                Progress::Finished(output) => return output,
            }
        }
    }
}

fn plain() -> MCP2518FD<()> {
    MCP2518FD::new(())
}

fn protected() -> MCP2518FD<()> {
    MCP2518FD::new(()).with_crc_protection(true)
}

#[test]
fn the_driver_keeps_its_bus_and_setting() {
    let mut driver = MCP2518FD::new(7u8);
    assert!(!driver.crc_protection());
    driver.set_crc_protection(true);
    assert!(driver.crc_protection());
    *driver.bus_mut() = 9;
    assert!(driver.crc_protection());
    let driver = driver.with_crc_protection(false);
    assert!(!driver.crc_protection());
    assert_eq!(driver.free(), 9);
}

#[test]
fn ram_reads_back_with_and_without_protection() {
    let data: Vec<u8> = (0..2048u32).map(|i| (i * 7 + i / 256) as u8).collect();
    for driver in [plain(), protected()] {
        let mut device = Device::new();
        assert_eq!(device.run(&driver, driver.write_ram(0x400, &data)), Ok(()));
        assert_eq!(&device.memory[0x400..0xC00], &data[..]);
        assert!(device.memory[..0x400].iter().all(|b| *b == 0));
        assert!(device.memory[0xC00..].iter().all(|b| *b == 0));
        assert_eq!(device.run(&driver, driver.read_ram(0x400, 2048)), Ok(data.clone()));
        assert_eq!(device.run(&driver, driver.read_ram(0x404, 8)), Ok(data[4..12].to_vec()));
    }
}

#[test]
fn long_protected_transfers_are_split() {
    let driver = protected();
    let mut device = Device::new();
    let data = vec![0xA5; 2048];
    assert_eq!(device.run(&driver, driver.write_ram(0x400, &data)), Ok(()));
    // 255 words, 255 words, 2 words.
    assert_eq!(device.sent.len(), 3);
    assert_eq!(&device.sent[0][..3], &[0xA4, 0x00, 255]);
    assert_eq!(&device.sent[1][..3], &[0xA7, 0xFC, 255]);
    assert_eq!(&device.sent[2][..3], &[0xAB, 0xF8, 2]);
    assert_eq!(device.sent[0].len(), 3 + 1020 + 2);
    assert_eq!(device.sent[2].len(), 3 + 8 + 2);

    assert_eq!(device.run(&driver, driver.read_ram(0x400, 2048)), Ok(data));
    assert_eq!(device.sent[3], [0xB4, 0x00, 255]);
    assert_eq!(device.sent[4], [0xB7, 0xFC, 255]);
    assert_eq!(device.sent[5], [0xBB, 0xF8, 2]);

    let driver = plain();
    let mut device = Device::new();
    assert_eq!(device.run(&driver, driver.read_ram(0x400, 2048)), Ok(vec![0; 2048]));
    assert_eq!(device.sent, [[0x34, 0x00]]);
}

#[test]
fn frames_carry_the_checksum_of_header_and_data() {
    let driver = protected();
    let mut device = Device::new();
    let write = Access::WriteSfrByte(SFRAddress::IOCON, 1, 0x7F);
    assert!(matches!(device.perform(&driver, write), Reply::Done));
    assert_eq!(device.sent[0], [0xCE, 0x05, 0x7F, 0x9E, 0xD9]);

    let write = Access::WriteSfr(SFRAddress::OSC, 0x60);
    assert!(matches!(device.perform(&driver, write), Reply::Done));
    assert_eq!(device.sent[1], [0xAE, 0x00, 4, 0x60, 0, 0, 0, 0x7D, 0x11]);

    let write = driver.write_ram(0x400, &[1, 2, 3, 4, 5, 6, 7, 8]);
    assert_eq!(device.run(&driver, write), Ok(()));
    assert_eq!(device.sent[2], [0xA4, 0x00, 2, 1, 2, 3, 4, 5, 6, 7, 8, 0x7C, 0x5A]);

    let driver = plain();
    let write = Access::WriteSfr(SFRAddress::OSC, 0x1234_5678);
    assert!(matches!(device.perform(&driver, write), Reply::Done));
    assert_eq!(device.sent[3], [0x2E, 0x00, 0x78, 0x56, 0x34, 0x12]);
    let write = Access::WriteSfrByte(SFRAddress::C1TXQCON, 1, 3);
    assert!(matches!(device.perform(&driver, write), Reply::Done));
    assert_eq!(device.sent[4], [0x20, 0x51, 3]);
}

#[test]
fn a_checked_reply_is_taken_only_with_its_checksum() {
    let driver = protected();
    let access = Access::ReadSfr(SFRAddress::C1CON);
    let transfer = match driver.begin(access) {
        Progress::Running(transfer) => transfer,
        Progress::Finished(_) => panic!("a register read takes a transaction"),
    };
    let reply = SpiReply::Read { data: vec![0x60, 0x07, 0x98, 0x04], crc: vec![0xB2, 0x8C] };
    match transfer.resume(reply) {
        Progress::Finished(Reply::Word(value)) => assert_eq!(value, 0x0498_0760),
        _ => panic!("the checksum matches"),
    }
}

#[test]
fn ram_accesses_outside_of_the_ram_are_refused() {
    for driver in [plain(), protected()] {
        let mut device = Device::new();
        assert_eq!(
            device.run(&driver, driver.read_ram(0x3FC, 4)),
            Err(Error::InvalidRamAddress(0x3FC))
        );
        assert_eq!(
            device.run(&driver, driver.read_ram(0xBFC, 8)),
            Err(Error::InvalidRamAddress(0xBFC))
        );
        assert_eq!(
            device.run(&driver, driver.write_ram(0xC00, &[0; 4])),
            Err(Error::InvalidRamAddress(0xC00))
        );
        assert_eq!(
            device.run(&driver, driver.read_ram(0x400, 6)),
            Err(Error::InvalidReadLength(6))
        );
        assert_eq!(
            device.run(&driver, driver.write_ram(0x400, &[0; 3])),
            Err(Error::InvalidWriteLength(3))
        );
        // The address is looked at before the length.
        assert_eq!(
            device.run(&driver, driver.write_ram(0x3FF, &[0; 3])),
            Err(Error::InvalidRamAddress(0x3FF))
        );
        assert!(device.sent.is_empty());
        assert_eq!(device.run(&driver, driver.read_ram(0xBFC, 4)), Ok(vec![0; 4]));
    }
}

#[test]
fn an_access_of_no_bytes_needs_no_protected_transaction() {
    let driver = protected();
    let mut device = Device::new();
    assert_eq!(device.run(&driver, driver.read_ram(0x400, 0)), Ok(vec![]));
    assert_eq!(device.run(&driver, driver.write_ram(0x400, &[])), Ok(()));
    assert!(device.sent.is_empty());

    let driver = plain();
    assert_eq!(device.run(&driver, driver.read_ram(0x400, 0)), Ok(vec![]));
    assert_eq!(device.sent, [[0x34, 0x00]]);
}

#[test]
fn a_read_with_a_wrong_checksum_is_repeated_three_times() {
    let driver = protected();
    let mut device = Device::new();
    device.memory[0x400..0x404].copy_from_slice(&[1, 2, 3, 4]);
    device.corrupted = vec![0, 1, 2];
    assert_eq!(device.run(&driver, driver.read_ram(0x400, 4)), Ok(vec![1, 2, 3, 4]));
    assert_eq!(device.sent, vec![vec![0xB4, 0x00, 1]; 4]);

    let mut device = Device::new();
    device.corrupted = vec![0, 1, 2, 3];
    assert_eq!(
        device.run(&driver, driver.read_ram(0x400, 4)),
        Err(Error::CrcMismatch)
    );
    assert_eq!(device.sent.len(), 4);

    // Every part of a long read may be repeated as often.
    let mut device = Device::new();
    device.corrupted = vec![0, 1, 2, 4, 5, 6];
    assert_eq!(device.run(&driver, driver.read_ram(0x400, 1024)), Ok(vec![0; 1024]));
    assert_eq!(device.sent.len(), 8);
}

#[test]
fn a_failed_transaction_is_not_repeated() {
    for driver in [plain(), protected()] {
        let mut device = Device::new();
        device.failing = vec![0, 1, 2];
        assert_eq!(device.run(&driver, driver.read_ram(0x400, 4)), Err(Error::SPIRead));
        assert_eq!(device.run(&driver, driver.write_ram(0x400, &[0; 4])), Err(Error::SPIWrite));
        let read = driver.read_register::<CanControlRegister>();
        assert_eq!(device.run(&driver, read), Err(Error::SPIRead));
        assert_eq!(device.sent.len(), 3);
    }
}

#[test]
fn the_counter_may_carry_the_checksum_of_its_flipped_form() {
    let driver = plain();
    let begin = || match driver.begin(Access::ReadSfrCrc(SFRAddress::C1TBC)) {
        Progress::Running(transfer) => transfer,
        Progress::Finished(_) => panic!("a register read takes a transaction"),
    };
    // The checksum belongs to 0x00 in the lowest byte.
    let reply = SpiReply::Read { data: vec![0x80, 1, 2, 3], crc: vec![0xEE, 0xEC] };
    match begin().resume(reply) {
        Progress::Finished(Reply::Word(value)) => assert_eq!(value, 0x0302_0100),
        _ => panic!("the flipped form matches"),
    }
    // In other positions the checksum has to match as it is.
    let reply = SpiReply::Read { data: vec![0x00, 1, 0x82, 3], crc: vec![0xEE, 0xEC] };
    assert!(matches!(begin().resume(reply), Progress::Running(_)));

    // Other registers are not looked at twice.
    let transfer = match driver.begin(Access::ReadSfrCrc(SFRAddress::C1TSCON)) {
        Progress::Running(transfer) => transfer,
        Progress::Finished(_) => panic!("a register read takes a transaction"),
    };
    let crc = checksum(&[0xB0, 0x14, 4], &[0x00, 1, 2, 3]);
    let reply = SpiReply::Read { data: vec![0x80, 1, 2, 3], crc };
    assert!(matches!(transfer.resume(reply), Progress::Running(_)));
}

#[test]
fn replies_that_do_not_fit_are_errors() {
    let driver = plain();
    let begin = |access| match driver.begin(access) {
        Progress::Running(transfer) => transfer,
        Progress::Finished(_) => panic!("the access takes a transaction"),
    };
    let transfer = begin(Access::ReadSfr(SFRAddress::C1CON));
    let reply = SpiReply::Read { data: vec![1, 2, 3], crc: vec![] };
    assert!(matches!(
        transfer.resume(reply),
        Progress::Finished(Reply::Failed(Error::Other))
    ));
    let transfer = begin(Access::ReadSfr(SFRAddress::C1CON));
    assert!(matches!(
        transfer.resume(SpiReply::Written),
        Progress::Finished(Reply::Failed(Error::Other))
    ));
    let transfer = begin(Access::WriteSfr(SFRAddress::C1CON, 1));
    let reply = SpiReply::Read { data: vec![1, 2, 3, 4], crc: vec![] };
    assert!(matches!(
        transfer.resume(reply),
        Progress::Finished(Reply::Failed(Error::Other))
    ));
    // The same holds of operations.
    let read = driver.read_register::<CanControlRegister>();
    assert!(matches!(
        read.resume(Reply::Done),
        Progress::Finished(Err(Error::Other))
    ));
}

#[test]
fn registers_are_read_and_written_whole() {
    for driver in [plain(), protected()] {
        let mut device = Device::new();
        device.set(SFRAddress::OSC, 0x0000_0468);
        let read = driver.read_register::<OscillatorControlRegister>();
        let osc = device.run(&driver, read).unwrap();
        assert_eq!(osc.0, 0x468);
        assert!(osc.oscrdy());
        assert!(!osc.pllrdy());

        let write = driver.write_register(IoControlRegister(0xDEAD_BEEF));
        assert_eq!(device.run(&driver, write), Ok(()));
        assert_eq!(device.get(SFRAddress::IOCON), 0xDEAD_BEEF);
        assert_eq!(device.get(SFRAddress::OSC), 0x468);

        let status = FifoStatusRegister(0x0000_0101);
        let write = driver.write_repeated_register(FifoNumber::Fifo3, status);
        assert_eq!(device.run(&driver, write), Ok(()));
        assert_eq!(device.memory[0x78..0x7C], [0x01, 0x01, 0, 0]);
        let read = driver.read_repeated_register::<FifoStatusRegister>(FifoNumber::Fifo3);
        assert_eq!(device.run(&driver, read), Ok(status));
    }
}

#[test]
fn some_registers_are_always_read_with_a_checksum() {
    let driver = plain();
    let mut device = Device::new();
    device.set(SFRAddress::C1INT, 0x0000_0202);
    let interrupts = device.run(&driver, driver.get_top_level_interrupt_statuses()).unwrap();
    assert!(interrupts.rxif() && interrupts.spicrcif());
    assert_eq!(device.sent[0], [0xB0, 0x1C, 4]);

    device.set(SFRAddress::C1TBC, 0x1234_5678);
    assert_eq!(device.run(&driver, driver.get_time_base_counter()), Ok(0x1234_5678));
    assert_eq!(device.sent[1], [0xB0, 0x10, 4]);

    let read = driver.read_register_crc::<OscillatorControlRegister>();
    assert_eq!(device.run(&driver, read), Ok(OscillatorControlRegister(0)));
    assert_eq!(device.sent[2], [0xBE, 0x00, 4]);
}

#[test]
fn interrupt_statuses_come_from_their_registers() {
    let driver = plain();
    let mut device = Device::new();
    device.set(SFRAddress::C1VEC, 0x0102_0304);
    device.set(SFRAddress::C1RXIF, 0x2);
    device.set(SFRAddress::C1RXOVIF, 0x4);
    device.set(SFRAddress::C1TXIF, 0x8);
    device.set(SFRAddress::C1TXATIF, 0x10);
    assert_eq!(device.run(&driver, driver.get_highest_interrupt_codes()).unwrap().0, 0x0102_0304);
    assert_eq!(device.run(&driver, driver.get_rx_interrupt_statuses()).unwrap().0, 0x2);
    assert_eq!(device.run(&driver, driver.get_rx_overflow_interrupt_statuses()).unwrap().0, 0x4);
    assert_eq!(device.run(&driver, driver.get_tx_interrupt_statuses()).unwrap().0, 0x8);
    assert_eq!(device.run(&driver, driver.get_tx_attempt_interrupt_statuses()).unwrap().0, 0x10);
}

#[test]
fn a_register_is_modified_in_place() {
    let driver = plain();
    let mut device = Device::new();
    device.set(SFRAddress::C1CON, 0x0498_0760);
    let change = driver.modify_register(|mut con: CanControlRegister| {
        con.set_txqen(false);
        con
    });
    assert_eq!(device.run(&driver, change), Ok(()));
    assert_eq!(device.get(SFRAddress::C1CON), 0x0488_0760);

    device.set(SFRAddress::C1FIFOSTA(FifoNumber::Fifo2), 0xFF);
    let change = driver.modify_repeated_register(FifoNumber::Fifo2, |status: FifoStatusRegister| {
        FifoStatusRegister(status.0 + 1)
    });
    assert_eq!(device.run(&driver, change), Ok(()));
    assert_eq!(device.get(SFRAddress::C1FIFOSTA(FifoNumber::Fifo2)), 0x100);

    // Nothing is written if the read fails.
    device.failing = vec![4];
    let change = driver.modify_register(|_: CanControlRegister| CanControlRegister(0));
    assert_eq!(device.run(&driver, change), Err(Error::SPIRead));
    assert_eq!(device.get(SFRAddress::C1CON), 0x0488_0760);
    // A failed write is reported.
    device.failing = vec![6];
    let change = driver.modify_register(|_: CanControlRegister| CanControlRegister(0));
    assert_eq!(device.run(&driver, change), Err(Error::SPIWrite));
}

#[test]
fn clearing_flags_keeps_those_that_come_up_meanwhile() {
    let driver = plain();
    // SERRIF and WAKIF are pending, IVMIF comes up between the read and the write.
    let mut device = Device::new();
    device.set(SFRAddress::C1INT, 0x5000);
    let change = driver.clear_register_flags(|int: &mut InterruptRegister| int.clear_wakif());
    let pending = device.run(&driver, change).unwrap();
    assert_eq!(pending.0, 0x5000);
    // Every other clearable flag is written as 1, which leaves it as it is.
    assert_eq!(device.sent[1], [0x20, 0x1C, 0x0C, 0xB0, 0, 0]);

    let mut device = Device::new();
    device.set(SFRAddress::C1FIFOSTA(FifoNumber::Fifo1), 0x11);
    let change = driver.clear_repeated_register_flags(
        FifoNumber::Fifo1,
        |status: &mut FifoStatusRegister| status.clear_txatif(),
    );
    assert_eq!(device.run(&driver, change), Ok(FifoStatusRegister(0x11)));
    assert_eq!(device.get(SFRAddress::C1FIFOSTA(FifoNumber::Fifo1)), 0x09);
}

#[test]
fn exhausted_attempts_are_reported_and_cleared() {
    let driver = plain();
    let mut device = Device::new();
    device.set(SFRAddress::C1FIFOSTA(FifoNumber::Fifo4), 0x12);
    let query = driver.tx_fifo_transmission_attempts_exhausted(FifoNumber::Fifo4);
    assert_eq!(device.run(&driver, query), Ok(true));
    assert_eq!(device.get(SFRAddress::C1FIFOSTA(FifoNumber::Fifo4)), 0x0A);
    device.set(SFRAddress::C1FIFOSTA(FifoNumber::Fifo4), 0x02);
    let query = driver.tx_fifo_transmission_attempts_exhausted(FifoNumber::Fifo4);
    assert_eq!(device.run(&driver, query), Ok(false));
}

#[test]
fn status_questions_are_answered_by_flags() {
    let driver = plain();
    let fifo = FifoNumber::Fifo5;
    let mut device = Device::new();
    assert_eq!(device.run(&driver, driver.tx_queue_is_empty()), Ok(false));
    assert_eq!(device.run(&driver, driver.tx_queue_is_full()), Ok(true));
    assert_eq!(device.run(&driver, driver.tx_fifo_is_empty(fifo)), Ok(false));
    assert_eq!(device.run(&driver, driver.tx_fifo_is_full(fifo)), Ok(true));
    assert_eq!(device.run(&driver, driver.tx_event_fifo_has_next()), Ok(false));
    device.set(SFRAddress::C1TXQSTA, 0x5);
    device.set(SFRAddress::C1FIFOSTA(fifo), 0x5);
    device.set(SFRAddress::C1TEFSTA, 0x1);
    assert_eq!(device.run(&driver, driver.tx_queue_is_empty()), Ok(true));
    assert_eq!(device.run(&driver, driver.tx_queue_is_full()), Ok(false));
    assert_eq!(device.run(&driver, driver.tx_fifo_is_empty(fifo)), Ok(true));
    assert_eq!(device.run(&driver, driver.tx_fifo_is_full(fifo)), Ok(false));
    assert_eq!(device.run(&driver, driver.tx_event_fifo_has_next()), Ok(true));

    device.set(SFRAddress::C1CON, 0x0098_0760);
    assert_eq!(device.run(&driver, driver.get_op_mode()), Ok(OperationMode::Configuration));
    device.set(SFRAddress::C1CON, 0x0418_0760);
    assert_eq!(device.run(&driver, driver.get_op_mode()), Ok(OperationMode::NormalCanFd));
}

/// A device with an enabled transmit queue, room in it, and a transmit FIFO with 8 bytes of
/// payload per message.
fn transmitting_device() -> Device {
    let mut device = Device::new();
    device.set(SFRAddress::C1CON, 1 << 20);
    device.set(SFRAddress::C1TXQCON, 1 << 29);
    device.set(SFRAddress::C1TXQSTA, 1);
    device.set(SFRAddress::C1TXQUA, 0x120);
    device.set(SFRAddress::C1FIFOCON(FifoNumber::Fifo2), 1 << 7);
    device.set(SFRAddress::C1FIFOSTA(FifoNumber::Fifo2), 1);
    device.set(SFRAddress::C1FIFOUA(FifoNumber::Fifo2), 0x200);
    device
}

fn message(data: &[u8]) -> TxMessage {
    TxMessage::new(TxHeader(0x0123, 0x0005), data).unwrap()
}

#[test]
fn messages_have_at_most_64_bytes() {
    assert!(TxMessage::new(TxHeader(0, 0), &[0; 64]).is_some());
    assert!(TxMessage::new(TxHeader(0, 0), &[0; 65]).is_none());
    let (length, bytes) = message(&[1, 2, 3, 4, 5]).as_bytes();
    assert_eq!(length, 13);
    assert_eq!(bytes.len(), 72);
    assert_eq!(bytes[..14], [0x23, 0x01, 0, 0, 5, 0, 0, 0, 1, 2, 3, 4, 5, 0]);
}

#[test]
fn a_message_goes_into_the_queue() {
    for driver in [plain(), protected()] {
        let mut device = transmitting_device();
        let push = driver.tx_queue_push_message(&message(&[1, 2, 3, 4, 5]));
        assert_eq!(device.run(&driver, push), Ok(()));
        // The object is padded with zeros to a whole number of words.
        assert_eq!(
            device.memory[0x520..0x534],
            [0x23, 0x01, 0, 0, 5, 0, 0, 0, 1, 2, 3, 4, 5, 0, 0, 0, 0, 0, 0, 0]
        );
        assert_eq!(device.memory[0x50..0x54], [0, 1, 0, 0x20]);
        assert_eq!(device.sent.len(), 6);

        let mut device = transmitting_device();
        let push = driver.tx_queue_transmit_message(&message(&[9]));
        assert_eq!(device.run(&driver, push), Ok(()));
        assert_eq!(device.memory[0x50..0x54], [0, 3, 0, 0x20]);
    }
}

#[test]
fn a_pending_request_survives_a_push() {
    let driver = plain();
    let mut device = transmitting_device();
    device.set(SFRAddress::C1TXQCON, 1 << 29 | 1 << 9);
    device.set(SFRAddress::C1FIFOCON(FifoNumber::Fifo2), 1 << 7 | 1 << 9);
    assert_eq!(device.run(&driver, driver.tx_queue_push_message(&message(&[1]))), Ok(()));
    assert_eq!(device.memory[0x51], 3);
    device.set(SFRAddress::C1TXQCON, 1 << 29 | 1 << 9);
    let push = driver.tx_queue_push_message_unchecked(&message(&[1]));
    assert_eq!(device.run(&driver, push), Ok(()));
    assert_eq!(device.memory[0x51], 3);
    let push = driver.tx_fifo_push_message(FifoNumber::Fifo2, &message(&[1]));
    assert_eq!(device.run(&driver, push), Ok(()));
    assert_eq!(device.memory[0x68..0x6C], [0x80, 3, 0, 0]);
}

#[test]
fn a_message_goes_into_a_fifo() {
    let driver = plain();
    let mut device = transmitting_device();
    let push = driver.tx_fifo_push_message(FifoNumber::Fifo2, &message(&[7; 8]));
    assert_eq!(device.run(&driver, push), Ok(()));
    assert_eq!(device.memory[0x600..0x608], [0x23, 0x01, 0, 0, 5, 0, 0, 0]);
    assert_eq!(device.memory[0x608..0x610], [7; 8]);
    assert_eq!(device.memory[0x68..0x6C], [0x80, 1, 0, 0]);

    let push = driver.tx_fifo_transmit_message(FifoNumber::Fifo2, &message(&[7; 8]));
    assert_eq!(device.run(&driver, push), Ok(()));
    assert_eq!(device.memory[0x68..0x6C], [0x80, 3, 0, 0]);
}

#[test]
fn transmission_is_requested_with_one_byte() {
    let driver = plain();
    let mut device = transmitting_device();
    assert_eq!(device.run(&driver, driver.tx_queue_request_transmission()), Ok(()));
    assert_eq!(device.sent[0], [0x20, 0x51, 2]);
    let request = driver.tx_fifo_request_transmission(FifoNumber::Fifo2);
    assert_eq!(device.run(&driver, request), Ok(()));
    assert_eq!(device.sent[1], [0x20, 0x69, 2]);
    assert_eq!(device.memory[0x68..0x6C], [0x80, 2, 0, 0]);
}

#[test]
fn a_refused_message_leaves_the_device_as_it_is() {
    let driver = plain();
    let fifo = FifoNumber::Fifo2;

    let mut device = transmitting_device();
    device.set(SFRAddress::C1CON, 0);
    let before = device.memory.clone();
    let push = driver.tx_queue_push_message(&message(&[1]));
    assert_eq!(device.run(&driver, push), Err(Error::TxQueueDisabled));
    assert_eq!(device.memory, before);

    // The queue has 12 bytes per message.
    let mut device = transmitting_device();
    let before = device.memory.clone();
    let push = driver.tx_queue_push_message(&message(&[1; 13]));
    assert_eq!(device.run(&driver, push), Err(Error::FifoTooSmall));
    let push = driver.tx_fifo_push_message(fifo, &message(&[1; 9]));
    assert_eq!(device.run(&driver, push), Err(Error::FifoTooSmall));
    let push = driver.tx_fifo_push_message(FifoNumber::Fifo3, &message(&[1]));
    assert_eq!(device.run(&driver, push), Err(Error::FifoNotTx));
    assert_eq!(device.memory, before);

    let mut device = transmitting_device();
    device.set(SFRAddress::C1TXQSTA, 0);
    device.set(SFRAddress::C1FIFOSTA(fifo), 0);
    let before = device.memory.clone();
    let push = driver.tx_queue_push_message(&message(&[1]));
    assert_eq!(device.run(&driver, push), Err(Error::FifoFull));
    let push = driver.tx_fifo_push_message(fifo, &message(&[1]));
    assert_eq!(device.run(&driver, push), Err(Error::FifoFull));
    assert_eq!(device.memory, before);

    let mut device = transmitting_device();
    device.set(SFRAddress::C1TXQUA, 0x7F8);
    let push = driver.tx_queue_push_message(&message(&[1]));
    assert_eq!(device.run(&driver, push), Err(Error::InvalidRamAddress(0xBF8)));
}

#[test]
fn an_unchecked_push_looks_at_no_status() {
    let driver = plain();
    let mut device = Device::new();
    device.set(SFRAddress::C1TXQUA, 0x10);
    let push = driver.tx_queue_push_message_unchecked(&message(&[1; 12]));
    assert_eq!(device.run(&driver, push), Ok(()));
    assert_eq!(device.memory[0x418..0x424], [1; 12]);
    assert_eq!(device.memory[0x51], 1);
    assert_eq!(device.sent.len(), 4);
}

/// A device with a message in FIFO 1, with a timestamp and 12 bytes of payload area, and an event
/// in its transmit event FIFO.
fn receiving_device() -> Device {
    let mut device = Device::new();
    device.set(SFRAddress::C1FIFOCON(FifoNumber::Fifo1), 1 << 29 | 1 << 5);
    device.set(SFRAddress::C1FIFOSTA(FifoNumber::Fifo1), 1);
    device.set(SFRAddress::C1FIFOUA(FifoNumber::Fifo1), 0x80);
    let object = [
        0x34, 0x02, 0, 0, 9 | 1 << 7, 0, 0, 0, 0x2A, 0, 0, 0, 1, 2, 3, 4, 5, 6, 7, 8, 9, 10, 11, 12,
    ];
    device.memory[0x480..0x480 + 24].copy_from_slice(&object);
    device.set(SFRAddress::C1TEFSTA, 1);
    device.set(SFRAddress::C1TEFUA, 0x40);
    device.set(SFRAddress::C1TEFCON, 1 << 5);
    device.memory[0x440..0x44C].copy_from_slice(&[1, 0, 0, 0, 2, 0, 0, 0, 3, 0, 0, 0]);
    device
}

#[test]
fn a_message_is_looked_at_and_taken() {
    for driver in [plain(), protected()] {
        let mut device = receiving_device();
        let before = device.memory.clone();
        assert_eq!(device.run(&driver, driver.rx_fifo_has_next(FifoNumber::Fifo1)), Ok(true));
        let read = driver.rx_fifo_peek_next(FifoNumber::Fifo1);
        let message = device.run(&driver, read).unwrap().unwrap();
        assert_eq!(device.memory, before);
        // DLC 9 of a CAN FD frame means 12 bytes.
        assert_eq!(message.data(), &[1, 2, 3, 4, 5, 6, 7, 8, 9, 10, 11, 12]);
        assert_eq!(message.timestamp(), Some(42));
        assert_eq!(message.header().0, 0x234);

        let read = driver.rx_fifo_get_next(FifoNumber::Fifo1);
        let message = device.run(&driver, read).unwrap().unwrap();
        assert_eq!(message.data().len(), 12);
        assert_eq!(device.memory[0x5C..0x60], [1 << 5, 1, 0, 0x20]);
    }
}

#[test]
fn a_message_without_timestamp_starts_earlier() {
    let driver = plain();
    let mut device = receiving_device();
    device.set(SFRAddress::C1FIFOCON(FifoNumber::Fifo1), 0);
    let read = driver.rx_fifo_peek_next(FifoNumber::Fifo1);
    let message = device.run(&driver, read).unwrap().unwrap();
    assert_eq!(message.timestamp(), None);
    // Only the 8 bytes of the payload area are there.
    assert_eq!(message.data(), &[0x2A, 0, 0, 0, 1, 2, 3, 4]);
}

#[test]
fn nothing_is_received_from_other_fifos() {
    let driver = plain();
    let mut device = receiving_device();
    device.set(SFRAddress::C1FIFOSTA(FifoNumber::Fifo1), 0);
    assert_eq!(device.run(&driver, driver.rx_fifo_has_next(FifoNumber::Fifo1)), Ok(false));
    let read = driver.rx_fifo_get_next(FifoNumber::Fifo1);
    assert!(matches!(device.run(&driver, read), Ok(None)));
    assert_eq!(device.memory[0x5D], 0);

    device.set(SFRAddress::C1FIFOCON(FifoNumber::Fifo1), 1 << 7);
    assert_eq!(
        device.run(&driver, driver.rx_fifo_has_next(FifoNumber::Fifo1)),
        Err(Error::FifoNotRx)
    );
    let read = driver.rx_fifo_get_next(FifoNumber::Fifo1);
    assert!(matches!(device.run(&driver, read), Err(Error::FifoNotRx)));

    let mut device = receiving_device();
    device.set(SFRAddress::C1FIFOUA(FifoNumber::Fifo1), 0xFFF);
    let read = driver.rx_fifo_peek_next(FifoNumber::Fifo1);
    assert!(matches!(
        device.run(&driver, read),
        Err(Error::InvalidRamAddress(0x13FF))
    ));
}

#[test]
fn an_event_is_looked_at_and_taken() {
    let driver = plain();
    let mut device = receiving_device();
    let before = device.memory.clone();
    let event = device.run(&driver, driver.tx_event_fifo_peek_next()).unwrap().unwrap();
    assert_eq!(event.header, TxHeader(1, 2));
    assert_eq!(event.timestamp, Some(3));
    assert_eq!(device.memory, before);

    let event = device.run(&driver, driver.tx_event_fifo_get_next()).unwrap().unwrap();
    assert_eq!(event.timestamp, Some(3));
    assert_eq!(device.memory[0x40..0x44], [1 << 5, 1, 0, 0]);

    device.set(SFRAddress::C1TEFCON, 0);
    let event = device.run(&driver, driver.tx_event_fifo_peek_next()).unwrap().unwrap();
    assert_eq!(event.header, TxHeader(1, 2));
    assert_eq!(event.timestamp, None);

    device.set(SFRAddress::C1TEFSTA, 0);
    assert_eq!(device.run(&driver, driver.tx_event_fifo_get_next()), Ok(None));
}

#[test]
fn the_connection_is_verified_in_ram() {
    for driver in [plain(), protected()] {
        let mut device = Device::new();
        assert_eq!(device.run(&driver, driver.verify_spi_communications()), Ok(()));
        assert_eq!(device.sent.len(), 64);
        assert_eq!(device.memory[0x400..0x404], [0, 0, 0, 0x80]);

        let mut device = Device::new();
        assert_eq!(device.run(&driver, driver.verify_spi_communications_long()), Ok(()));
        assert_eq!(device.sent.len(), 2);
        assert_eq!(device.memory[0x400..0x408], [1, 0, 0, 0, 2, 0, 0, 0]);
        assert_eq!(device.memory[0x47C..0x480], [0, 0, 0, 0x80]);
        assert_eq!(device.memory[0x480], 0);
    }

    // A bit that is stuck is noticed.
    let driver = plain();
    let mut device = Device::new();
    device.hook = Box::new(|memory, _| memory[0x401] &= 0xFE);
    assert_eq!(
        device.run(&driver, driver.verify_spi_communications()),
        Err(ConfigError::SPIFailedRAMEcho)
    );
    // It is bit 8, so eight words came through.
    assert_eq!(device.sent.len(), 18);
    let mut device = Device::new();
    device.hook = Box::new(|memory, _| memory[0x47F] = 0);
    assert_eq!(
        device.run(&driver, driver.verify_spi_communications_long()),
        Err(ConfigError::SPIFailedRAMEcho)
    );
    let mut device = Device::new();
    device.failing = vec![5];
    assert_eq!(
        device.run(&driver, driver.verify_spi_communications()),
        Err(ConfigError::ConfigurationModeTimeout)
    );
}

#[test]
fn io_control_is_written_without_the_pin_status() {
    let driver = plain();
    let mut device = Device::new();
    device.set(SFRAddress::IOCON, 0x0055_0000);
    let write = driver.write_io_control(IoControlRegister(0x4433_2211));
    assert_eq!(device.run(&driver, write), Ok(()));
    assert_eq!(device.sent, [[0x2E, 0x04, 0x11], [0x2E, 0x05, 0x22], [0x2E, 0x07, 0x44]]);
    assert_eq!(device.get(SFRAddress::IOCON), 0x4455_2211);
}

#[test]
fn errors_count_as_timeouts_of_configuration_mode() {
    assert_eq!(ConfigError::from(Error::SPIRead), ConfigError::ConfigurationModeTimeout);
    assert_eq!(ConfigError::from(Error::SPIWrite), ConfigError::ConfigurationModeTimeout);
    assert_eq!(
        ConfigError::from(Error::CrcMismatch),
        ConfigError::Other(Error::CrcMismatch)
    );
}
