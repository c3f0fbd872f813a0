//! Received messages.

use vstd::prelude::*;

use crate::bits::{
    bit, copy_range, field, get_bit, get_field, lemma_field_value, word_at, word_of,
};
use crate::message::{
    lemma_payload_lengths, len_for_dlc, payload_len, HEADER_LEN, MAX_FD_BUFFER_SIZE, TIMESTAMP_LEN,
};

verus! {

/// Position of the data length code in the second header word.
pub const RX_DLC: u32 = 0;

/// Position of the CAN FD flag in the second header word.
pub const RX_FDF: u32 = 7;

/// The header words R0 and R1 of a received message.
#[derive(Clone, Copy, Debug, PartialEq, Eq, Structural)]
pub struct RxHeader(pub u32, pub u32);

impl RxHeader {
    /// The data length code.
    pub fn dlc(&self) -> (value: u8)
        ensures
            value == field(self.1, RX_DLC, 4),
            value < 16,
    {
        proof {
            assert((1u32 << 4u32) == 16u32) by (bit_vector);
        }
        get_field(self.1, RX_DLC, 4) as u8
    }

    /// Whether this is a CAN FD frame.
    pub fn fdf(&self) -> (value: bool)
        ensures
            value == bit(self.1, RX_FDF),
    {
        get_bit(self.1, RX_FDF)
    }
}

/// What a received message holds.
pub ghost struct RxMessageView {
    pub header: RxHeader,
    pub timestamp: Option<u32>,
    pub data: Seq<u8>,
}

/// A received message.
#[derive(Debug)]
pub struct RxMessage {
    header: RxHeader,
    timestamp: Option<u32>,
    data: Vec<u8>,
}

impl View for RxMessage {
    type V = RxMessageView;

    closed spec fn view(&self) -> RxMessageView {
        RxMessageView { header: self.header, timestamp: self.timestamp, data: self.data@ }
    }
}

impl RxMessage {
    /// Puts a message together; there is none with more than 64 bytes of data.
    pub fn new(header: RxHeader, timestamp: Option<u32>, data: &[u8]) -> (message: Option<
        RxMessage,
    >)
        ensures
            match message {
                Some(m) => data@.len() <= MAX_FD_BUFFER_SIZE && m@ == (RxMessageView {
                    header,
                    timestamp,
                    data: data@,
                }),
                None => data@.len() > MAX_FD_BUFFER_SIZE,
            },
    {
        if data.len() > MAX_FD_BUFFER_SIZE {
            return None;
        }
        let copy = copy_range(data, 0, data.len());
        assert(copy@ =~= data@);
        Some(RxMessage { header, timestamp, data: copy })
    }

    /// The header.
    pub fn header(&self) -> (header: RxHeader)
        ensures
            header == self@.header,
    {
        self.header
    }

    /// When the message was received, if its FIFO stores timestamps.
    pub fn timestamp(&self) -> (timestamp: Option<u32>)
        ensures
            timestamp == self@.timestamp,
    {
        self.timestamp
    }

    /// The payload.
    pub fn data(&self) -> (data: &[u8])
        ensures
            data@ == self@.data,
    {
        self.data.as_slice()
    }
}

/// Where the payload starts in a message object.
pub open spec fn data_offset(with_timestamp: bool) -> int {
    if with_timestamp {
        HEADER_LEN + TIMESTAMP_LEN
    } else {
        HEADER_LEN as int
    }
}

/// The header of a message object.
pub open spec fn object_header(object: Seq<u8>) -> RxHeader {
    RxHeader(word_of(object.subrange(0, 4)), word_of(object.subrange(4, 8)))
}

/// The number of payload bytes available in a message object whose FIFO reserves `payload`
/// bytes: a message that is longer than that leaves its excess bytes unavailable.
pub open spec fn available_len(header: RxHeader, payload: int) -> int {
    let len = payload_len(field(header.1, RX_DLC, 4) as u8, bit(header.1, RX_FDF)).unwrap() as int;
    if len <= payload {
        len
    } else {
        payload
    }
}

/// The message that a message object holds.
pub open spec fn object_message(
    object: Seq<u8>,
    with_timestamp: bool,
    payload: int,
) -> RxMessageView {
    let header = object_header(object);
    let offset = data_offset(with_timestamp);
    RxMessageView {
        header,
        timestamp: if with_timestamp {
            Some(word_of(object.subrange(8, 12)))
        } else {
            None
        },
        data: object.subrange(offset, offset + available_len(header, payload)),
    }
}

/// Parses a message object: header, timestamp if there is one, and `payload` reserved bytes.
pub fn parse_object(object: &[u8], with_timestamp: bool, payload: usize) -> (message: RxMessage)
    requires
        object@.len() == data_offset(with_timestamp) + payload,
    ensures
        message@ == object_message(object@, with_timestamp, payload as int),
{
    let header = RxHeader(word_at(object, 0), word_at(object, 4));
    let timestamp: Option<u32> = if with_timestamp {
        Some(word_at(object, 8))
    } else {
        None
    };
    let offset: usize = if with_timestamp {
        HEADER_LEN + TIMESTAMP_LEN
    } else {
        HEADER_LEN
    };
    let len: usize = match len_for_dlc(header.dlc(), header.fdf()) {
        Some(n) => n,
        None => 0,
    };
    let available: usize = if len <= payload {
        len
    } else {
        payload
    };
    let data = copy_range(object, offset, offset + available);
    RxMessage { header, timestamp, data }
}

/// A received message has exactly as many bytes of data as its data length code stands for, or as
/// its payload area holds if these are fewer, and they are the first bytes of the payload area;
/// behind them the area holds whatever was there before. The two header words come first in the
/// object, and a timestamp stands between them and the payload area.
pub proof fn lemma_object_message(object: Seq<u8>, with_timestamp: bool, payload: int)
    requires
        payload >= 0,
        object.len() == payload + if with_timestamp {
            12int
        } else {
            8int
        },
    ensures
        ({
            let message = object_message(object, with_timestamp, payload);
            let start: int = if with_timestamp {
                12
            } else {
                8
            };
            let dlc = message.header.1 % 16;
            let fdf = message.header.1 / 128 % 2 == 1;
            let length = payload_len(dlc as u8, fdf).unwrap();
            &&& message.header.0 == object[0] + 0x100 * object[1] + 0x1_0000 * object[2]
                + 0x100_0000 * object[3]
            &&& message.header.1 == object[4] + 0x100 * object[5] + 0x1_0000 * object[6]
                + 0x100_0000 * object[7]
            &&& with_timestamp ==> (message.timestamp matches Some(timestamp) && timestamp
                == object[8] + 0x100 * object[9] + 0x1_0000 * object[10] + 0x100_0000 * object[11])
            &&& !with_timestamp ==> message.timestamp is None
            &&& message.data.len() <= length
            &&& message.data.len() <= payload
            &&& message.data.len() == length || message.data.len() == payload
            &&& dlc <= 8 && dlc <= payload ==> message.data.len() == dlc
            &&& forall|i: int|
                0 <= i < message.data.len() ==> #[trigger] message.data[i] == object[start + i]
        }),
{
    let message = object_message(object, with_timestamp, payload);
    vstd::arithmetic::power2::lemma2_to64();
    lemma_field_value(message.header.1, 0, 4);
    lemma_field_value(message.header.1, 7, 1);
    lemma_payload_lengths((message.header.1 % 16) as u8, message.header.1 / 128 % 2 == 1);
}

} // verus!
