//! Messages to transmit, and the events that report their transmission.

use vstd::prelude::*;

use crate::bits::{bytes_of, copy_range, word_bytes};
use crate::message::MAX_FD_BUFFER_SIZE;

verus! {

/// Bytes of the largest message object to transmit.
pub const MAX_TX_OBJECT_SIZE: usize = 72;

/// The header words T0 and T1 of a message to transmit.
#[derive(Clone, Copy, Debug, PartialEq, Eq, Structural)]
pub struct TxHeader(pub u32, pub u32);

/// An entry of the transmit event FIFO.
#[derive(Clone, Copy, Debug, PartialEq, Eq)]
pub struct TxEventObject {
    /// The header of the message that was transmitted.
    pub header: TxHeader,
    /// When it was transmitted, if the FIFO stores timestamps.
    pub timestamp: Option<u32>,
}

/// What a message to transmit holds.
pub ghost struct TxMessageView {
    pub header: TxHeader,
    pub data: Seq<u8>,
}

impl TxMessageView {
    /// The message object: header and payload.
    pub open spec fn object(self) -> Seq<u8> {
        bytes_of(self.header.0) + bytes_of(self.header.1) + self.data
    }
}

/// A message to transmit.
#[derive(Debug)]
pub struct TxMessage {
    header: TxHeader,
    data: Vec<u8>,
}

impl View for TxMessage {
    type V = TxMessageView;

    closed spec fn view(&self) -> TxMessageView {
        TxMessageView { header: self.header, data: self.data@ }
    }
}

/// `bytes`, followed by zeros up to `length`.
pub open spec fn padded(bytes: Seq<u8>, length: int) -> Seq<u8> {
    Seq::new(
        length as nat,
        |i: int|
            if i < bytes.len() {
                bytes[i]
            } else {
                0u8
            },
    )
}

impl TxMessage {
    #[verifier::type_invariant]
    spec fn fits(self) -> bool {
        self.data@.len() <= MAX_FD_BUFFER_SIZE
    }

    /// Puts a message together; there is none with more than 64 bytes of data.
    pub fn new(header: TxHeader, data: &[u8]) -> (message: Option<TxMessage>)
        ensures
            match message {
                Some(m) => data@.len() <= MAX_FD_BUFFER_SIZE && m@ == (TxMessageView {
                    header,
                    data: data@,
                }),
                None => data@.len() > MAX_FD_BUFFER_SIZE,
            },
    {
        if data.len() > MAX_FD_BUFFER_SIZE {
            return None;
        }
        let copy = copy_range(data, 0, data.len());
        assert(copy@ =~= data@);
        Some(TxMessage { header, data: copy })
    }

    /// The payload.
    pub fn data(&self) -> (data: &[u8])
        ensures
            data@ == self@.data,
            data@.len() <= MAX_FD_BUFFER_SIZE,
    {
        proof {
            use_type_invariant(self);
        }
        self.data.as_slice()
    }

    /// The length of the message object, and the object in a zeroed buffer that holds the
    /// largest one.
    pub fn as_bytes(&self) -> (object: (usize, Vec<u8>))
        ensures
            object.0 == self@.object().len(),
            object.0 <= MAX_TX_OBJECT_SIZE,
            object.1@ == padded(self@.object(), MAX_TX_OBJECT_SIZE as int),
    {
        proof {
            use_type_invariant(self);
        }
        let mut bytes = word_bytes(self.header.0);
        let mut second = word_bytes(self.header.1);
        bytes.append(&mut second);
        let mut data = copy_range(self.data.as_slice(), 0, self.data.len());
        bytes.append(&mut data);
        let length: usize = bytes.len();
        assert(bytes@ =~= self@.object());
        while bytes.len() < MAX_TX_OBJECT_SIZE
            invariant
                length == self@.object().len(),
                length <= bytes@.len() <= MAX_TX_OBJECT_SIZE,
                bytes@ == padded(self@.object(), bytes@.len() as int),
            decreases MAX_TX_OBJECT_SIZE - bytes@.len(),
        {
            bytes.push(0);
            assert(bytes@ =~= padded(self@.object(), bytes@.len() as int));
        }
        (length, bytes)
    }
}

/// A message object starts with the two header words, lowest byte first, and all of the data
/// follows; what is behind the data in a padded object is zero.
pub proof fn lemma_object_layout(message: TxMessageView, length: int)
    requires
        length >= 8 + message.data.len(),
    ensures
        ({
            let object = padded(message.object(), length);
            &&& object.len() == length
            &&& message.object().len() == 8 + message.data.len()
            &&& message.header.0 == object[0] + 0x100 * object[1] + 0x1_0000 * object[2]
                + 0x100_0000 * object[3]
            &&& message.header.1 == object[4] + 0x100 * object[5] + 0x1_0000 * object[6]
                + 0x100_0000 * object[7]
            &&& forall|i: int|
                0 <= i < message.data.len() ==> object[8 + i] == #[trigger] message.data[i]
            &&& forall|i: int| 8 + message.data.len() <= i < length ==> #[trigger] object[i] == 0
        }),
{
    let object = padded(message.object(), length);
    assert forall|i: int| 0 <= i < message.data.len() implies object[8 + i]
        == #[trigger] message.data[i] by {
        assert(message.object()[8 + i] == message.data[i]);
    }
}

} // verus!
