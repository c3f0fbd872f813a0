use mcp2518fd::memory::controller::fifo::FifoNumber;
use mcp2518fd::rx_fifo::RxFifoReader;

fn reader() -> RxFifoReader {
    RxFifoReader::new(FifoNumber::Fifo1, 0x480, 16, 8, true, 0)
}

#[test]
fn geometry() {
    let reader = reader();
    assert_eq!(reader.object_size(), 20);
    assert_eq!(reader.address_of(0), 0x480);
    assert_eq!(reader.address_of(3), 0x480 + 60);
    assert_eq!(reader.capacity(320), 16);
    assert_eq!(reader.capacity(19), 0);
}

#[test]
fn pending_and_wraparound() {
    let mut reader = reader();
    assert_eq!(reader.pending(0, false), 0);
    assert_eq!(reader.pending(5, false), 5);
    assert_eq!(reader.pending(0, true), 16);

    reader.advance(14);
    assert_eq!(reader.tail(), 14);
    assert_eq!(reader.pending(2, false), 4);
    assert_eq!(reader.contiguous(4), 2);
    reader.advance(2);
    assert_eq!(reader.tail(), 0);
}

#[test]
fn stale_objects_are_rejected() {
    let mut reader = reader();
    let mut buf = [0u8; 20 * 3];
    for (index, timestamp) in [1000u32, 1010, 900].into_iter().enumerate() {
        buf[index * 20 + 8..index * 20 + 12].copy_from_slice(&timestamp.to_le_bytes());
    }

    assert_eq!(reader.accept_fresh(&buf, 3), 2);
    assert_eq!(reader.last_timestamp(), Some(1010));

    // Wraparound of the 32-bit counter is not stale.
    let mut reader = RxFifoReader::new(FifoNumber::Fifo1, 0x480, 16, 8, true, 0);
    buf[8..12].copy_from_slice(&(u32::MAX - 10).to_le_bytes());
    buf[28..32].copy_from_slice(&5u32.to_le_bytes());
    assert_eq!(reader.accept_fresh(&buf, 2), 2);
    assert_eq!(reader.last_timestamp(), Some(5));
}

#[test]
fn without_timestamps_everything_is_fresh() {
    let mut reader = RxFifoReader::new(FifoNumber::Fifo1, 0x480, 16, 8, false, 0);
    assert_eq!(reader.object_size(), 16);
    assert_eq!(reader.accept_fresh(&[0u8; 48], 3), 3);
}

#[test]
fn parses_messages() {
    let reader = reader();
    let mut buf = [0u8; 20 * 2];
    // Object 1: SID 0x123, DLC 3, timestamp 42, data 1 2 3.
    let t0: u32 = 0x123;
    let t1: u32 = 3;
    buf[20..24].copy_from_slice(&t0.to_le_bytes());
    buf[24..28].copy_from_slice(&t1.to_le_bytes());
    buf[28..32].copy_from_slice(&42u32.to_le_bytes());
    buf[32..35].copy_from_slice(&[1, 2, 3]);

    let message = reader.message(&buf, 1).unwrap();
    assert_eq!(message.timestamp(), Some(42));
    assert_eq!(message.data(), &[1, 2, 3]);
    assert!(reader.message(&buf, 2).is_none());
}

#[test]
fn a_buffer_ends_with_its_last_whole_object() {
    let reader = reader();
    let buf = [0u8; 20 * 2 + 19];
    assert_eq!(reader.capacity(buf.len()), 2);
    assert!(reader.message(&buf, 1).is_some());
    assert!(reader.message(&buf, 2).is_none());
    assert!(reader.message(&buf, usize::MAX).is_none());
    assert!(reader.message(&[], 0).is_none());
}

#[test]
fn an_oversized_dlc_leaves_the_payload_area() {
    let reader = reader();
    let mut buf = [0u8; 20];
    // DLC 15 of a CAN FD frame means 64 bytes, of which the FIFO holds 8.
    buf[4..8].copy_from_slice(&(15u32 | 1 << 7).to_le_bytes());
    buf[12..20].copy_from_slice(&[1, 2, 3, 4, 5, 6, 7, 8]);
    let message = reader.message(&buf, 0).unwrap();
    assert_eq!(message.data(), &[1, 2, 3, 4, 5, 6, 7, 8]);
    assert_eq!(message.header().dlc(), 15);
    assert!(message.header().fdf());
}

#[test]
fn timestamps_of_parsed_and_checked_objects_agree() {
    let reader = reader();
    let mut buf = [0u8; 40];
    buf[28..32].copy_from_slice(&0xDEAD_BEEFu32.to_le_bytes());
    assert_eq!(reader.timestamp_of(&buf, 1), Some(0xDEAD_BEEF));
    assert_eq!(reader.message(&buf, 1).unwrap().timestamp(), Some(0xDEAD_BEEF));
    assert_eq!(reader.timestamp_of(&buf, 2), None);

    let without = RxFifoReader::new(FifoNumber::Fifo1, 0x480, 16, 8, false, 0);
    assert_eq!(without.timestamp_of(&buf, 0), None);
    assert_eq!(without.message(&buf, 0).unwrap().timestamp(), None);
}

#[test]
fn a_stale_object_is_measured_against_the_last_accepted_one() {
    let mut reader = reader();
    let mut buf = [0u8; 20];
    buf[8..12].copy_from_slice(&500u32.to_le_bytes());
    assert_eq!(reader.accept_fresh(&buf, 1), 1);

    buf[8..12].copy_from_slice(&499u32.to_le_bytes());
    assert_eq!(reader.accept_fresh(&buf, 1), 0);
    assert_eq!(reader.last_timestamp(), Some(500));

    // The same timestamp again is fresh, and so is anything less than half of the range ahead.
    buf[8..12].copy_from_slice(&500u32.to_le_bytes());
    assert_eq!(reader.accept_fresh(&buf, 1), 1);
    buf[8..12].copy_from_slice(&(500u32 + 0x7FFF_FFFF).to_le_bytes());
    assert_eq!(reader.clone().accept_fresh(&buf, 1), 1);
    buf[8..12].copy_from_slice(&(500u32 + 0x8000_0000).to_le_bytes());
    assert_eq!(reader.clone().accept_fresh(&buf, 1), 0);

    // Objects behind the end of the buffer are not accepted.
    buf[8..12].copy_from_slice(&501u32.to_le_bytes());
    assert_eq!(reader.accept_fresh(&buf, 2), 1);
}

#[test]
fn two_reads_drain_a_full_ring() {
    let mut reader = RxFifoReader::new(FifoNumber::Fifo2, 0x400, 16, 8, true, 10);
    let pending = reader.pending(10, true);
    assert_eq!(pending, 16);
    let first = reader.contiguous(pending);
    assert_eq!(first, 6);
    reader.advance(first);
    assert_eq!(reader.tail(), 0);
    assert_eq!(reader.pending(10, false), 10);
    let second = reader.contiguous(10);
    assert_eq!(second, 10);
    reader.advance(second);
    assert_eq!(reader.pending(10, false), 0);
    assert_eq!(reader.contiguous(0), 0);
}

#[test]
fn a_reader_keeps_its_geometry() {
    let reader = RxFifoReader::new(FifoNumber::Fifo31, 0x500, 32, 64, false, 7);
    assert_eq!(reader.fifo(), FifoNumber::Fifo31);
    assert_eq!(reader.fifo_size(), 32);
    assert!(!reader.has_timestamps());
    assert_eq!(reader.tail(), 7);
    assert_eq!(reader.last_timestamp(), None);
    assert_eq!(reader.object_size(), 72);
    // Consecutive objects lie one behind the other.
    assert_eq!(reader.address_of(7), reader.address_of(3) + 4 * 72);
}
