//! Messages as they are laid out in the device's RAM.
//!
//! A message object is a header of two words, an optional timestamp, and the payload.

pub mod rx;
pub mod tx;

use vstd::prelude::*;

verus! {

/// Words in the header of a message object.
pub const HEADER_SIZE_DWORDS: usize = 2;

/// Bytes in the header of a message object.
pub const HEADER_LEN: usize = HEADER_SIZE_DWORDS * 4;

/// Bytes of a timestamp in a message object.
pub const TIMESTAMP_LEN: usize = 4;

/// Most payload bytes that a message can carry.
pub const MAX_FD_BUFFER_SIZE: usize = 64;

/// The number of payload bytes that a data length code stands for: up to 8 it is the number
/// itself; above that it is 8 in classic frames, and 12, 16, 20, 24, 32, 48 or 64 in CAN FD
/// frames. There is no code above 15.
pub open spec fn payload_len(dlc: u8, fdf: bool) -> Option<nat> {
    if dlc > 15 {
        None
    } else if dlc <= 8 {
        Some(dlc as nat)
    } else if !fdf {
        Some(8)
    } else if dlc <= 12 {
        Some((4 * (dlc - 6)) as nat)
    } else {
        Some((16 * (dlc - 11)) as nat)
    }
}

/// The number of payload bytes that a data length code stands for.
pub fn len_for_dlc(dlc: u8, fdf: bool) -> (len: Option<usize>)
    ensures
        match len {
            Some(n) => payload_len(dlc, fdf) == Some(n as nat) && n <= MAX_FD_BUFFER_SIZE,
            None => payload_len(dlc, fdf) is None,
        },
{
    match dlc {
        0 | 1 | 2 | 3 | 4 | 5 | 6 | 7 | 8 => Some(dlc as usize),
        9 | 10 | 11 | 12 | 13 | 14 | 15 => if fdf {
            match dlc {
                9 => Some(12),
                10 => Some(16),
                11 => Some(20),
                12 => Some(24),
                13 => Some(32),
                14 => Some(48),
                _ => Some(64),
            }
        } else {
            Some(8)
        },
        _ => None,
    }
}

/// The number of payload bytes for every data length code, in classic frames and in CAN FD frames.
pub proof fn lemma_payload_lengths(dlc: u8, fdf: bool)
    ensures
        dlc <= 8 ==> payload_len(dlc, fdf) == Some(dlc as nat),
        9 <= dlc <= 15 && !fdf ==> payload_len(dlc, fdf) == Some(8nat),
        dlc > 15 ==> payload_len(dlc, fdf) is None,
        payload_len(9, true) == Some(12nat),
        payload_len(10, true) == Some(16nat),
        payload_len(11, true) == Some(20nat),
        payload_len(12, true) == Some(24nat),
        payload_len(13, true) == Some(32nat),
        payload_len(14, true) == Some(48nat),
        payload_len(15, true) == Some(64nat),
{
}

} // verus!
