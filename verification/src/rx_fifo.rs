//! Bulk reading of receive FIFOs.
//!
//! [`RxFifoReader`] captures the geometry of a FIFO once and tracks the tail index in software,
//! so that all pending messages can be pulled with one status read and one RAM read instead of
//! re-reading the FIFO's control, status and user address registers for every message.

use vstd::prelude::*;

use crate::bits::{copy_range, word_at, word_of};
use crate::memory::controller::fifo::FifoNumber;
use crate::message::rx::{
    data_offset, lemma_object_message, object_message, parse_object, RxMessage, RxMessageView,
};
use crate::message::{payload_len, HEADER_LEN, TIMESTAMP_LEN};

verus! {

/// What a reader knows of its FIFO.
pub ghost struct RxFifoView {
    pub fifo: FifoNumber,
    pub base_address: int,
    pub fifo_size: int,
    pub payload_size: int,
    pub with_timestamp: bool,
    pub tail: int,
    pub last_timestamp: Option<u32>,
}

/// Whether a timestamp is not older than the one before it. Timestamps count modulo 2^32, so
/// one that lies less than half of that range ahead counts as newer.
pub open spec fn is_fresh(last: Option<u32>, timestamp: u32) -> bool {
    match last {
        None => true,
        Some(last) => (timestamp - last) % 0x1_0000_0000 < 0x8000_0000,
    }
}

impl RxFifoView {
    /// The tail is the index of one of the FIFO's objects.
    pub open spec fn is_ring(self) -> bool {
        0 <= self.tail < self.fifo_size
    }

    /// Bytes of one message object in RAM.
    pub open spec fn object_size(self) -> int {
        data_offset(self.with_timestamp) + self.payload_size
    }

    /// Bytes of object `index` in a buffer of consecutive objects.
    pub open spec fn object(self, buf: Seq<u8>, index: int) -> Seq<u8> {
        buf.subrange(index * self.object_size(), (index + 1) * self.object_size())
    }

    /// Number of whole objects in `len` bytes.
    pub open spec fn capacity(self, len: int) -> int {
        len / self.object_size()
    }

    /// The message that object `index` of a buffer holds, if the buffer contains that object.
    pub open spec fn message(self, buf: Seq<u8>, index: int) -> Option<RxMessageView> {
        if (index + 1) * self.object_size() <= buf.len() {
            Some(object_message(self.object(buf, index), self.with_timestamp, self.payload_size))
        } else {
            None
        }
    }

    /// The timestamp of object `index` of a buffer, if the objects carry timestamps and the
    /// buffer reaches behind this one.
    pub open spec fn timestamp(self, buf: Seq<u8>, index: int) -> Option<u32> {
        let offset = index * self.object_size() + HEADER_LEN;
        if self.with_timestamp && offset + TIMESTAMP_LEN <= buf.len() {
            Some(word_of(buf.subrange(offset, offset + TIMESTAMP_LEN)))
        } else {
            None
        }
    }

    /// RAM address of object `index`.
    pub open spec fn address(self, index: int) -> int {
        self.base_address + index * self.object_size()
    }

    /// Number of pending objects, given the controller's head index and full flag.
    pub open spec fn pending(self, head: int, full: bool) -> int {
        if full {
            self.fifo_size
        } else {
            (head - self.tail) % self.fifo_size
        }
    }

    /// Number of pending objects from the tail up to the end of the FIFO's memory.
    pub open spec fn contiguous(self, pending: int) -> int {
        if pending <= self.fifo_size - self.tail {
            pending
        } else {
            self.fifo_size - self.tail
        }
    }

    /// The reader after `count` objects have been consumed.
    pub open spec fn advanced(self, count: int) -> RxFifoView {
        RxFifoView { tail: (self.tail + count) % self.fifo_size, ..self }
    }

    /// The timestamp that object `index` of a buffer is compared with: that of the object before
    /// it, or of the last message accepted earlier.
    pub open spec fn predecessor(self, buf: Seq<u8>, index: int) -> Option<u32> {
        if index == 0 {
            self.last_timestamp
        } else {
            self.timestamp(buf, index - 1)
        }
    }

    /// Whether object `index` of a buffer has a timestamp that is not older than its
    /// predecessor's.
    pub open spec fn accepts(self, buf: Seq<u8>, index: int) -> bool {
        match self.timestamp(buf, index) {
            Some(timestamp) => is_fresh(self.predecessor(buf, index), timestamp),
            None => false,
        }
    }
}

/// Geometry and software tail of a receive FIFO, for bulk reads.
///
/// The reader mirrors the controller's tail index, so it must be the only consumer of its FIFO,
/// and a new reader is needed after the FIFO is reconfigured or reset.
#[derive(Debug)]
pub struct RxFifoReader {
    fifo: FifoNumber,
    /// RAM address of message object index 0.
    base_address: u16,
    /// Number of message objects in the FIFO.
    fifo_size: u8,
    /// Payload bytes reserved per object (PLSIZE).
    payload_size: usize,
    with_timestamp: bool,
    /// Index of the next object to read.
    tail: u8,
    /// Timestamp of the last accepted message, for the stale-object check.
    last_timestamp: Option<u32>,
}

impl View for RxFifoReader {
    type V = RxFifoView;

    closed spec fn view(&self) -> RxFifoView {
        RxFifoView {
            fifo: self.fifo,
            base_address: self.base_address as int,
            fifo_size: self.fifo_size as int,
            payload_size: self.payload_size as int,
            with_timestamp: self.with_timestamp,
            tail: self.tail as int,
            last_timestamp: self.last_timestamp,
        }
    }
}

impl Clone for RxFifoReader {
    fn clone(&self) -> (copy: Self)
        ensures
            copy@ == self@,
    {
        Self {
            fifo: self.fifo,
            base_address: self.base_address,
            fifo_size: self.fifo_size,
            payload_size: self.payload_size,
            with_timestamp: self.with_timestamp,
            tail: self.tail,
            last_timestamp: self.last_timestamp,
        }
    }
}

impl RxFifoReader {
    /// A reader of a FIFO with the given geometry that has accepted no message yet.
    pub fn new(
        fifo: FifoNumber,
        base_address: u16,
        fifo_size: u8,
        payload_size: usize,
        with_timestamp: bool,
        tail: u8,
    ) -> (reader: Self)
        ensures
            reader@ == (RxFifoView {
                fifo,
                base_address: base_address as int,
                fifo_size: fifo_size as int,
                payload_size: payload_size as int,
                with_timestamp,
                tail: tail as int,
                last_timestamp: None,
            }),
    {
        Self {
            fifo,
            base_address,
            fifo_size,
            payload_size,
            with_timestamp,
            tail,
            last_timestamp: None,
        }
    }

    /// The FIFO that is read.
    pub fn fifo(&self) -> (fifo: FifoNumber)
        ensures
            fifo == self@.fifo,
    {
        self.fifo
    }

    /// Size in bytes of one message object as stored in RAM: header, optional timestamp and the
    /// FIFO's full payload area regardless of the data length code.
    pub fn object_size(&self) -> (size: usize)
        requires
            self@.object_size() <= usize::MAX,
        ensures
            size == self@.object_size(),
            size >= HEADER_LEN,
    {
        HEADER_LEN + if self.with_timestamp {
            TIMESTAMP_LEN
        } else {
            0
        } + self.payload_size
    }

    /// Number of message objects in the FIFO.
    pub fn fifo_size(&self) -> (size: u8)
        ensures
            size == self@.fifo_size,
    {
        self.fifo_size
    }

    /// Whether the objects carry a receive timestamp, which enables the stale-object check.
    pub fn has_timestamps(&self) -> (value: bool)
        ensures
            value == self@.with_timestamp,
    {
        self.with_timestamp
    }

    /// Number of message objects a buffer of `len` bytes can hold.
    pub fn capacity(&self, len: usize) -> (count: usize)
        requires
            self@.object_size() <= usize::MAX,
        ensures
            count == self@.capacity(len as int),
    {
        len / self.object_size()
    }

    /// Parses object `index` of a buffer of consecutive objects.
    ///
    /// Returns `None` if the buffer does not contain that object.
    pub fn message(&self, buf: &[u8], index: usize) -> (message: Option<RxMessage>)
        requires
            self@.object_size() <= usize::MAX,
        ensures
            match message {
                Some(m) => self@.message(buf@, index as int) == Some(m@),
                None => self@.message(buf@, index as int) is None,
            },
    {
        let size: usize = self.object_size();
        let len: usize = buf.len();
        proof {
            assert((index + 1) * size == index * size + size) by (nonlinear_arith);
        }
        let start: usize = match index.checked_mul(size) {
            Some(start) => start,
            None => return None,
        };
        if start > len || len - start < size {
            return None;
        }
        let object = copy_range(buf, start, start + size);
        Some(parse_object(object.as_slice(), self.with_timestamp, self.payload_size))
    }

    /// Timestamp of object `index` of a buffer of consecutive objects, if timestamps are enabled.
    pub fn timestamp_of(&self, buf: &[u8], index: usize) -> (timestamp: Option<u32>)
        requires
            self@.object_size() <= usize::MAX,
        ensures
            timestamp == self@.timestamp(buf@, index as int),
    {
        if !self.with_timestamp {
            return None;
        }
        let len: usize = buf.len();
        let start: usize = match index.checked_mul(self.object_size()) {
            Some(start) => start,
            None => return None,
        };
        if start > len || len - start < HEADER_LEN + TIMESTAMP_LEN {
            return None;
        }
        Some(word_at(buf, start + HEADER_LEN))
    }

    /// RAM address of object `index`.
    pub fn address_of(&self, index: u8) -> (address: u16)
        requires
            self@.object_size() <= u16::MAX,
            self@.address(index as int) <= u16::MAX,
        ensures
            address == self@.address(index as int),
    {
        proof {
            assert(0 <= index * self@.object_size()) by (nonlinear_arith)
                requires
                    0 <= index,
                    0 <= self@.object_size(),
            ;
        }
        self.base_address + index as u16 * self.object_size() as u16
    }

    /// Index of the next object to read.
    pub fn tail(&self) -> (tail: u8)
        ensures
            tail == self@.tail,
    {
        self.tail
    }

    /// Timestamp of the last accepted message.
    pub fn last_timestamp(&self) -> (timestamp: Option<u32>)
        ensures
            timestamp == self@.last_timestamp,
    {
        self.last_timestamp
    }

    /// Number of pending objects given the controller's head index and full flag.
    pub fn pending(&self, head: u8, full: bool) -> (count: u8)
        requires
            self@.is_ring(),
            head + self@.fifo_size <= u8::MAX,
        ensures
            count == self@.pending(head as int, full),
    {
        if full {
            self.fifo_size
        } else {
            proof {
                vstd::arithmetic::div_mod::lemma_mod_add_multiples_vanish(
                    head - self.tail,
                    self.fifo_size as int,
                );
            }
            (head + self.fifo_size - self.tail) % self.fifo_size
        }
    }

    /// Objects available for a single contiguous read from the tail.
    pub fn contiguous(&self, pending: u8) -> (count: u8)
        requires
            self@.is_ring(),
        ensures
            count == self@.contiguous(pending as int),
    {
        let up_to_end: u8 = self.fifo_size - self.tail;
        if pending <= up_to_end {
            pending
        } else {
            up_to_end
        }
    }

    /// Returns how many of the `count` objects at the start of `buf` are newer than the last
    /// accepted message, stopping at the first stale one, and records the newest timestamp.
    ///
    /// According to erratum DS80000789E item 6 the FIFOCI head index can be corrupted, which
    /// would make a bulk read run past the head into old objects. Timestamps expose this: an
    /// object older than its predecessor is stale. Without timestamps every object is accepted.
    pub fn accept_fresh(&mut self, buf: &[u8], count: usize) -> (accepted: usize)
        requires
            old(self)@.object_size() <= usize::MAX,
        ensures
            !old(self)@.with_timestamp ==> accepted == count && final(self)@ == old(self)@,
            old(self)@.with_timestamp ==> {
                &&& accepted <= count
                &&& forall|i: int| 0 <= i < accepted ==> old(self)@.accepts(buf@, i)
                &&& accepted < count ==> !old(self)@.accepts(buf@, accepted as int)
                &&& final(self)@ == (RxFifoView {
                    last_timestamp: old(self)@.predecessor(buf@, accepted as int),
                    ..old(self)@
                })
            },
    {
        if !self.with_timestamp {
            return count;
        }
        let ghost before = self@;
        let mut accepted: usize = 0;
        while accepted < count
            invariant
                accepted <= count,
                before.with_timestamp,
                before.object_size() <= usize::MAX,
                forall|i: int| 0 <= i < accepted ==> before.accepts(buf@, i),
                self@ == (RxFifoView {
                    last_timestamp: before.predecessor(buf@, accepted as int),
                    ..before
                }),
            ensures
                accepted <= count,
                forall|i: int| 0 <= i < accepted ==> before.accepts(buf@, i),
                accepted < count ==> !before.accepts(buf@, accepted as int),
                self@ == (RxFifoView {
                    last_timestamp: before.predecessor(buf@, accepted as int),
                    ..before
                }),
            decreases count - accepted,
        {
            assert(self@.timestamp(buf@, accepted as int) == before.timestamp(
                buf@,
                accepted as int,
            ));
            let timestamp: u32 = match self.timestamp_of(buf, accepted) {
                Some(timestamp) => timestamp,
                None => break,
            };
            if let Some(last) = self.last_timestamp {
                if timestamp.wrapping_sub(last) >= 0x8000_0000 {
                    break;
                }
            }
            self.last_timestamp = Some(timestamp);
            accepted += 1;
        }
        accepted
    }

    /// Moves the tail past `count` objects.
    pub fn advance(&mut self, count: u8)
        requires
            old(self)@.is_ring(),
            old(self)@.tail + count <= u8::MAX,
        ensures
            final(self)@ == old(self)@.advanced(count as int),
            final(self)@.is_ring(),
    {
        self.tail = (self.tail + count) % self.fifo_size;
    }
}

/// A contiguous read never runs past the FIFO's last object, and reads nothing only if nothing
/// is pending.
pub proof fn lemma_contiguous_in_bounds(reader: RxFifoView, pending: int)
    requires
        reader.is_ring(),
        0 <= pending <= reader.fifo_size,
    ensures
        0 <= reader.contiguous(pending) <= pending,
        reader.tail + reader.contiguous(pending) <= reader.fifo_size,
        reader.contiguous(pending) == 0 ==> pending == 0,
{
}

/// Consuming objects takes them off the pending ones, whatever the head of a FIFO that is not
/// full.
pub proof fn lemma_advance_consumes(reader: RxFifoView, head: int, count: int)
    requires
        reader.is_ring(),
        0 <= head < reader.fifo_size,
        0 <= count <= reader.pending(head, false),
    ensures
        reader.advanced(count).pending(head, false) == reader.pending(head, false) - count,
{
    let size = reader.fifo_size;
    let pending = reader.pending(head, false);
    if head >= reader.tail {
        vstd::arithmetic::div_mod::lemma_small_mod((head - reader.tail) as nat, size as nat);
        assert(pending == head - reader.tail);
    } else {
        vstd::arithmetic::div_mod::lemma_mod_add_multiples_vanish(head - reader.tail, size);
        vstd::arithmetic::div_mod::lemma_small_mod((head - reader.tail + size) as nat, size as nat);
        assert(pending == head - reader.tail + size);
    }
    let tail = reader.advanced(count).tail;
    if reader.tail + count < size {
        vstd::arithmetic::div_mod::lemma_small_mod((reader.tail + count) as nat, size as nat);
        assert(tail == reader.tail + count);
    } else {
        vstd::arithmetic::div_mod::lemma_mod_add_multiples_vanish(
            reader.tail + count - size,
            size,
        );
        vstd::arithmetic::div_mod::lemma_small_mod(
            (reader.tail + count - size) as nat,
            size as nat,
        );
        assert(tail == reader.tail + count - size);
    }
    if head >= tail {
        vstd::arithmetic::div_mod::lemma_small_mod((head - tail) as nat, size as nat);
    } else {
        vstd::arithmetic::div_mod::lemma_mod_add_multiples_vanish(head - tail, size);
        vstd::arithmetic::div_mod::lemma_small_mod((head - tail + size) as nat, size as nat);
    }
}

/// In a full FIFO the head stands at the tail. Consuming at least one of its objects leaves the
/// others pending.
pub proof fn lemma_advance_consumes_full(reader: RxFifoView, count: int)
    requires
        reader.is_ring(),
        1 <= count <= reader.fifo_size,
    ensures
        reader.advanced(count).pending(reader.tail, false) == reader.pending(reader.tail, true)
            - count,
{
    let size = reader.fifo_size;
    let head = reader.tail;
    let tail = reader.advanced(count).tail;
    if reader.tail + count < size {
        vstd::arithmetic::div_mod::lemma_small_mod((reader.tail + count) as nat, size as nat);
        vstd::arithmetic::div_mod::lemma_mod_add_multiples_vanish(head - tail, size);
        vstd::arithmetic::div_mod::lemma_small_mod((head - tail + size) as nat, size as nat);
    } else {
        vstd::arithmetic::div_mod::lemma_mod_add_multiples_vanish(
            reader.tail + count - size,
            size,
        );
        vstd::arithmetic::div_mod::lemma_small_mod(
            (reader.tail + count - size) as nat,
            size as nat,
        );
        vstd::arithmetic::div_mod::lemma_small_mod((head - tail) as nat, size as nat);
    }
}

/// At most two contiguous reads drain a FIFO: what the first one leaves lies at the start of the
/// FIFO's memory.
pub proof fn lemma_two_reads_drain(reader: RxFifoView, pending: int)
    requires
        reader.is_ring(),
        0 <= pending <= reader.fifo_size,
    ensures
        ({
            let first = reader.contiguous(pending);
            let rest = pending - first;
            &&& reader.advanced(first).contiguous(rest) == rest
            &&& rest > 0 ==> reader.advanced(first).tail == 0
        }),
{
    let first = reader.contiguous(pending);
    if pending > reader.fifo_size - reader.tail {
        assert(reader.tail + first == reader.fifo_size);
        vstd::arithmetic::div_mod::lemma_mod_self_0(reader.fifo_size);
    }
    vstd::arithmetic::div_mod::lemma_mod_bound(reader.tail + first, reader.fifo_size);
}

/// The objects of a contiguous read lie one behind the other in RAM.
pub proof fn lemma_objects_are_consecutive(reader: RxFifoView, index: int, count: int)
    ensures
        reader.address(index + count) == reader.address(index) + count * reader.object_size(),
{
    assert((index + count) * reader.object_size() == index * reader.object_size() + count
        * reader.object_size()) by (nonlinear_arith);
}

/// A buffer contains object `index`, and so a message for it, exactly if the object is within
/// the buffer's capacity.
pub proof fn lemma_message_within_capacity(reader: RxFifoView, buf: Seq<u8>, index: int)
    requires
        reader.payload_size >= 0,
        index >= 0,
    ensures
        reader.message(buf, index) is Some <==> index < reader.capacity(buf.len() as int),
{
    let size = reader.object_size();
    let len = buf.len() as int;
    vstd::arithmetic::div_mod::lemma_fundamental_div_mod(len, size);
    vstd::arithmetic::div_mod::lemma_mod_bound(len, size);
    let capacity = len / size;
    if index < capacity {
        assert((index + 1) * size <= size * capacity) by (nonlinear_arith)
            requires
                index + 1 <= capacity,
                size > 0,
        ;
    } else {
        assert((index + 1) * size >= size * capacity + size) by (nonlinear_arith)
            requires
                index >= capacity,
                size > 0,
        ;
    }
}

/// The timestamp used in the stale-object check is the one that the parsed message carries.
pub proof fn lemma_message_timestamp(reader: RxFifoView, buf: Seq<u8>, index: int)
    requires
        reader.payload_size >= 0,
        index >= 0,
        reader.message(buf, index) is Some,
    ensures
        reader.message(buf, index).unwrap().timestamp == reader.timestamp(buf, index),
{
    let size = reader.object_size();
    let start = index * size;
    assert((index + 1) * size == start + size) by (nonlinear_arith)
        requires
            start == index * size,
    ;
    assert(start >= 0) by (nonlinear_arith)
        requires
            index >= 0,
            size >= 0,
            start == index * size,
    ;
    if reader.with_timestamp {
        assert(buf.subrange(start, start + size).subrange(8, 12) =~= buf.subrange(
            start + 8,
            start + 12,
        ));
    }
}

/// A counter that wraps around does not make a message stale: any timestamp up to half of the
/// counter's range ahead is fresh, and any further one counts as older.
pub proof fn lemma_fresh_across_wraparound(last: u32, ahead: u32)
    ensures
        is_fresh(Some(last), ((last + ahead) % 0x1_0000_0000) as u32) <==> ahead < 0x8000_0000,
{
}

/// Objects that are read and checked in two parts are accepted as if they had been read and
/// checked at once: the first part leaves behind the timestamp that the second one starts with.
pub proof fn lemma_accept_in_parts(
    reader: RxFifoView,
    first: Seq<u8>,
    second: Seq<u8>,
    count: int,
    index: int,
)
    requires
        reader.payload_size >= 0,
        reader.with_timestamp,
        count >= 0,
        index >= 0,
        first.len() == count * reader.object_size(),
    ensures
        index < count ==> reader.accepts(first + second, index) == reader.accepts(first, index),
        reader.accepts(first + second, count + index) == (RxFifoView {
            last_timestamp: reader.predecessor(first, count),
            ..reader
        }).accepts(second, index),
{
    let both = first + second;
    let size = reader.object_size();
    assert forall|i: int| 0 <= i < count implies #[trigger] reader.timestamp(both, i)
        == reader.timestamp(first, i) by {
        assert(0 <= i * size && i * size + size <= count * size) by (nonlinear_arith)
            requires
                0 <= i < count,
                size >= 0,
        ;
        let offset = i * size + HEADER_LEN;
        assert(both.subrange(offset, offset + 4) =~= first.subrange(offset, offset + 4));
    }
    assert forall|i: int| i >= 0 implies #[trigger] reader.timestamp(both, count + i)
        == reader.timestamp(second, i) by {
        assert((count + i) * size == count * size + i * size && i * size >= 0)
            by (nonlinear_arith)
            requires
                i >= 0,
                size >= 0,
        ;
        let offset = i * size + HEADER_LEN;
        if offset + TIMESTAMP_LEN <= second.len() {
            assert(both.subrange(
                count * size + offset,
                count * size + offset + 4,
            ) =~= second.subrange(offset, offset + 4));
        }
    }
    if index < count && index > 0 {
        assert(reader.timestamp(both, index - 1) == reader.timestamp(first, index - 1));
    }
    let later = RxFifoView { last_timestamp: reader.predecessor(first, count), ..reader };
    assert(reader.timestamp(both, count + index) == later.timestamp(second, index));
    if index > 0 {
        assert(reader.timestamp(both, count + (index - 1)) == later.timestamp(second, index - 1));
    } else if count > 0 {
        assert(reader.timestamp(both, count - 1) == reader.timestamp(first, count - 1));
    }
}

/// An object has two header words, a timestamp if the FIFO stores them, and the whole payload
/// area. Object 0 lies at the FIFO's base address, and each object right behind the one before.
pub proof fn lemma_object_addresses(reader: RxFifoView, index: int)
    ensures
        reader.object_size() == reader.payload_size + if reader.with_timestamp {
            12int
        } else {
            8int
        },
        reader.address(0) == reader.base_address,
        reader.address(index + 1) == reader.address(index) + reader.object_size(),
{
    assert((index + 1) * reader.object_size() == index * reader.object_size()
        + reader.object_size()) by (nonlinear_arith);
}

/// A buffer holds as many objects as fit whole.
pub proof fn lemma_capacity(reader: RxFifoView, len: int)
    requires
        reader.payload_size >= 0,
        len >= 0,
    ensures
        reader.capacity(len) >= 0,
        reader.capacity(len) * reader.object_size() <= len,
        len < (reader.capacity(len) + 1) * reader.object_size(),
{
    let size = reader.object_size();
    vstd::arithmetic::div_mod::lemma_fundamental_div_mod(len, size);
    vstd::arithmetic::div_mod::lemma_mod_bound(len, size);
    vstd::arithmetic::div_mod::lemma_div_pos_is_pos(len, size);
    let count = len / size;
    assert((count + 1) * size == size * count + size && count * size == size * count)
        by (nonlinear_arith);
}

/// Going on from the tail by the number of pending objects leads to the head. A FIFO that is full
/// has all of its objects pending, and one that is not has fewer.
pub proof fn lemma_pending_leads_to_head(reader: RxFifoView, head: int)
    requires
        reader.is_ring(),
        0 <= head < reader.fifo_size,
    ensures
        0 <= reader.pending(head, false) < reader.fifo_size,
        reader.tail + reader.pending(head, false) == head || reader.tail + reader.pending(
            head,
            false,
        ) == head + reader.fifo_size,
        reader.pending(head, true) == reader.fifo_size,
{
    let size = reader.fifo_size;
    if head >= reader.tail {
        vstd::arithmetic::div_mod::lemma_small_mod((head - reader.tail) as nat, size as nat);
    } else {
        vstd::arithmetic::div_mod::lemma_mod_add_multiples_vanish(head - reader.tail, size);
        vstd::arithmetic::div_mod::lemma_small_mod((head - reader.tail + size) as nat, size as nat);
    }
}

/// A contiguous read takes all pending objects, or all up to the end of the FIFO's memory if these
/// are fewer.
pub proof fn lemma_contiguous_is_smaller(reader: RxFifoView, pending: int)
    ensures
        reader.contiguous(pending) <= pending,
        reader.contiguous(pending) <= reader.fifo_size - reader.tail,
        reader.contiguous(pending) == pending || reader.contiguous(pending) == reader.fifo_size
            - reader.tail,
{
}

/// Consuming objects moves the tail on by as many, back to the start behind the last object, and
/// changes nothing else.
pub proof fn lemma_advance_moves_tail(reader: RxFifoView, count: int)
    requires
        reader.is_ring(),
        0 <= count <= reader.fifo_size,
    ensures
        reader.advanced(count).is_ring(),
        reader.advanced(count).tail == reader.tail + count || reader.advanced(count).tail
            == reader.tail + count - reader.fifo_size,
        reader.advanced(count).fifo == reader.fifo,
        reader.advanced(count).base_address == reader.base_address,
        reader.advanced(count).fifo_size == reader.fifo_size,
        reader.advanced(count).payload_size == reader.payload_size,
        reader.advanced(count).with_timestamp == reader.with_timestamp,
        reader.advanced(count).last_timestamp == reader.last_timestamp,
{
    let size = reader.fifo_size;
    if reader.tail + count < size {
        vstd::arithmetic::div_mod::lemma_small_mod((reader.tail + count) as nat, size as nat);
    } else {
        vstd::arithmetic::div_mod::lemma_mod_add_multiples_vanish(
            reader.tail + count - size,
            size,
        );
        vstd::arithmetic::div_mod::lemma_small_mod(
            (reader.tail + count - size) as nat,
            size as nat,
        );
    }
}

/// The message of an object in a buffer consists of the object's own bytes: the header words and
/// the timestamp stand first, and the data are the first bytes behind them, as many as the data
/// length code stands for, or as the payload area holds if these are fewer.
pub proof fn lemma_message_content(reader: RxFifoView, buf: Seq<u8>, index: int)
    requires
        reader.payload_size >= 0,
        index >= 0,
        (index + 1) * reader.object_size() <= buf.len(),
    ensures
        reader.message(buf, index) matches Some(message) && ({
            let first = index * reader.object_size();
            let start: int = first + if reader.with_timestamp {
                12int
            } else {
                8int
            };
            let dlc = message.header.1 % 16;
            let length = payload_len(dlc as u8, message.header.1 / 128 % 2 == 1).unwrap();
            &&& message.header.0 == buf[first] + 0x100 * buf[first + 1] + 0x1_0000 * buf[first + 2]
                + 0x100_0000 * buf[first + 3]
            &&& message.header.1 == buf[first + 4] + 0x100 * buf[first + 5] + 0x1_0000 * buf[first
                + 6] + 0x100_0000 * buf[first + 7]
            &&& reader.with_timestamp <==> message.timestamp is Some
            &&& message.timestamp == reader.timestamp(buf, index)
            &&& message.data.len() <= length
            &&& message.data.len() <= reader.payload_size
            &&& message.data.len() == length || message.data.len() == reader.payload_size
            &&& forall|i: int|
                0 <= i < message.data.len() ==> #[trigger] message.data[i] == buf[start + i]
        }),
{
    let size = reader.object_size();
    let first = index * size;
    assert((index + 1) * size == first + size && first >= 0) by (nonlinear_arith)
        requires
            first == index * size,
            index >= 0,
            size >= 0,
    ;
    lemma_object_message(
        reader.object(buf, index),
        reader.with_timestamp,
        reader.payload_size,
    );
    lemma_message_timestamp(reader, buf, index);
}

/// The timestamp of an object stands behind its two header words, lowest byte first.
pub proof fn lemma_timestamp_content(reader: RxFifoView, buf: Seq<u8>, index: int)
    requires
        reader.payload_size >= 0,
        index >= 0,
    ensures
        ({
            let first = index * reader.object_size();
            match reader.timestamp(buf, index) {
                Some(timestamp) => reader.with_timestamp && first + 12 <= buf.len() && timestamp
                    == buf[first + 8] + 0x100 * buf[first + 9] + 0x1_0000 * buf[first + 10]
                    + 0x100_0000 * buf[first + 11],
                None => !reader.with_timestamp || buf.len() < first + 12,
            }
        }),
{
    let size = reader.object_size();
    assert(index * size >= 0) by (nonlinear_arith)
        requires
            index >= 0,
            size >= 0,
    ;
}

/// An object is accepted exactly if it has a timestamp that lies less than half of the counter's
/// range ahead of its predecessor's, or if there is no predecessor; the predecessor is the object
/// before it, and of the first object the last message accepted earlier.
pub proof fn lemma_accepts(reader: RxFifoView, buf: Seq<u8>, index: int)
    requires
        index >= 0,
    ensures
        ({
            let before = if index == 0 {
                reader.last_timestamp
            } else {
                reader.timestamp(buf, index - 1)
            };
            &&& reader.predecessor(buf, index) == before
            &&& reader.accepts(buf, index) <==> match (reader.timestamp(buf, index), before) {
                (None, _) => false,
                (Some(_), None) => true,
                (Some(timestamp), Some(last)) => if timestamp >= last {
                    timestamp - last < 0x8000_0000
                } else {
                    last - timestamp > 0x8000_0000
                },
            }
        }),
{
}

} // verus!
