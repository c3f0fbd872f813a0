use mcp2518fd::spi::{round_up_spi_transfer_size, Instruction, OpCode};

/// The device's CRC is CRC-16 with polynomial 0x8005, initial value 0xFFFF, no reflection and no
/// final XOR (section 4.3.1), which the catalogue calls CRC-16/CMS.
#[test]
fn crc_matches_device_algorithm() {
    let crc = crc::Crc::<u16>::new(&crc::CRC_16_CMS);

    // Bit-serial reference implementation of the datasheet's description.
    fn reference(bytes: &[u8]) -> u16 {
        let mut crc: u16 = 0xFFFF;
        for &byte in bytes {
            crc ^= (byte as u16) << 8;
            for _ in 0..8 {
                crc = if crc & 0x8000 != 0 {
                    (crc << 1) ^ 0x8005
                } else {
                    crc << 1
                };
            }
        }
        crc
    }

    let mut instruction = Instruction(OpCode::READ_CRC);
    instruction.set_address(0x400);
    let instruction = instruction.into_spi_data();
    let frame = [
        instruction[0],
        instruction[1],
        2,
        0xDE,
        0xAD,
        0xBE,
        0xEF,
        1,
        2,
        3,
        4,
    ];

    assert_eq!(crc.checksum(&frame), reference(&frame));
    assert_eq!(crc.checksum(b"123456789"), 0xAEE7);
}

#[test]
fn instruction_encoding() {
    let mut instruction = Instruction(OpCode::WRITE_SAFE);
    instruction.set_address(0xE05);
    assert_eq!(instruction.into_spi_data(), [0xCE, 0x05]);

    let mut instruction = Instruction(OpCode::READ_CRC);
    instruction.set_address(0x400);
    assert_eq!(instruction.into_spi_data(), [0xB4, 0x00]);
}

#[test]
fn test_round_up_spi_transfer_size() {
    assert_eq!(round_up_spi_transfer_size(0), 0);
    assert_eq!(round_up_spi_transfer_size(1), 4);
    assert_eq!(round_up_spi_transfer_size(2), 4);
    assert_eq!(round_up_spi_transfer_size(3), 4);
    assert_eq!(round_up_spi_transfer_size(4), 4);
    assert_eq!(round_up_spi_transfer_size(5), 8);
    assert_eq!(round_up_spi_transfer_size(6), 8);
    assert_eq!(round_up_spi_transfer_size(7), 8);
    assert_eq!(round_up_spi_transfer_size(8), 8);
    assert_eq!(round_up_spi_transfer_size(9), 12);
}

#[test]
fn an_address_keeps_the_instruction() {
    let mut instruction = Instruction(OpCode::READ);
    instruction.set_address(0xFFF);
    assert_eq!(instruction.op_code(), 0b0011);
    assert_eq!(instruction.address(), 0xFFF);
    // Only the low 12 bits of an address are sent.
    instruction.set_address(0xF123);
    assert_eq!(instruction.op_code(), 0b0011);
    assert_eq!(instruction.address(), 0x123);
    assert_eq!(instruction.into_spi_data(), [0x31, 0x23]);
}
