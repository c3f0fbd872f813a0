//! Bit fields of 32-bit words, and the byte order of words on the wire.
//!
//! A field is named by the position of its lowest bit and its width. Register contents travel
//! little-endian, instructions and checksums big-endian.

use vstd::arithmetic::power2::{lemma2_to64, pow2};
use vstd::bits::{
    lemma_u32_low_bits_mask_is_mod, lemma_u32_pow2_no_overflow, lemma_u32_shl_is_mul,
    lemma_u32_shr_is_div, low_bits_mask,
};
use vstd::prelude::*;

verus! {

/// The word whose lowest `width` bits are ones.
pub open spec fn ones(width: u32) -> u32 {
    0xFFFF_FFFFu32 >> ((32 - width) as u32)
}

/// Whether `width` bits from bit `lsb` on lie within a 32-bit word.
pub open spec fn is_field(lsb: u32, width: u32) -> bool {
    1 <= width <= 32 && lsb + width <= 32
}

/// The contents of a field.
pub open spec fn field(raw: u32, lsb: u32, width: u32) -> u32 {
    (raw >> lsb) & ones(width)
}

/// `raw` with a field replaced by the low bits of `value`.
pub open spec fn with_field(raw: u32, lsb: u32, width: u32, value: u32) -> u32 {
    (raw & !(ones(width) << lsb)) | ((value & ones(width)) << lsb)
}

/// Whether bit `n` is set.
pub open spec fn bit(raw: u32, n: u32) -> bool {
    field(raw, n, 1) == 1
}

/// `raw` with bit `n` set or cleared.
pub open spec fn with_bit(raw: u32, n: u32, value: bool) -> u32 {
    with_field(raw, n, 1, if value { 1u32 } else { 0u32 })
}

/// Reads a field of a register.
pub fn get_field(raw: u32, lsb: u32, width: u32) -> (value: u32)
    requires
        is_field(lsb, width),
    ensures
        value == field(raw, lsb, width),
        width < 32 ==> value < (1u32 << width),
{
    proof {
        if width < 32 {
            lemma_field_bound(raw, lsb, width);
        }
    }
    (raw >> lsb) & (0xFFFF_FFFFu32 >> (32 - width))
}

/// Replaces a field of a register; bits of `value` beyond the field's width are ignored.
pub fn set_field(raw: u32, lsb: u32, width: u32, value: u32) -> (result: u32)
    requires
        is_field(lsb, width),
    ensures
        result == with_field(raw, lsb, width, value),
{
    let mask: u32 = 0xFFFF_FFFFu32 >> (32 - width);
    (raw & !(mask << lsb)) | ((value & mask) << lsb)
}

/// Reads one bit of a register.
pub fn get_bit(raw: u32, n: u32) -> (value: bool)
    requires
        n < 32,
    ensures
        value == bit(raw, n),
{
    get_field(raw, n, 1) == 1
}

/// Sets or clears one bit of a register.
pub fn set_bit(raw: u32, n: u32, value: bool) -> (result: u32)
    requires
        n < 32,
    ensures
        result == with_bit(raw, n, value),
{
    set_field(raw, n, 1, if value { 1u32 } else { 0u32 })
}

/// A field holds no more than its width allows.
pub proof fn lemma_field_bound(raw: u32, lsb: u32, width: u32)
    requires
        is_field(lsb, width),
        width < 32,
    ensures
        field(raw, lsb, width) < (1u32 << width),
{
    assert(field(raw, lsb, width) < (1u32 << width)) by (bit_vector)
        requires
            1 <= width < 32,
            lsb < 32,
    ;
}

/// A field is what is left of the word once the bits below the field are shifted out and those
/// above it are cut off.
pub proof fn lemma_field_value(raw: u32, lsb: u32, width: u32)
    requires
        is_field(lsb, width),
        width < 32,
    ensures
        field(raw, lsb, width) == raw as int / pow2(lsb as nat) as int % (pow2(
            width as nat,
        ) as int),
{
    lemma_u32_shr_is_div(raw, lsb);
    let shifted = raw >> lsb;
    assert((0xFFFF_FFFFu32 >> ((32 - width) as u32)) == (1u32 << width) - 1) by (bit_vector)
        requires
            1 <= width < 32,
    ;
    lemma_u32_pow2_no_overflow(width as nat);
    lemma_u32_shl_is_mul(1, width);
    lemma_u32_low_bits_mask_is_mod(shifted, width as nat);
    assert(low_bits_mask(width as nat) == pow2(width as nat) - 1);
}

/// A bit is the parity of the word once the bits below it are shifted out.
pub proof fn lemma_bit_value(raw: u32, n: u32)
    requires
        n < 32,
    ensures
        bit(raw, n) <==> raw as int / pow2(n as nat) as int % 2 == 1,
{
    lemma_field_value(raw, n, 1);
    lemma2_to64();
}

/// A field reads back what was written to it, cut to its width.
pub proof fn lemma_field_reads_back(raw: u32, lsb: u32, width: u32, value: u32)
    requires
        is_field(lsb, width),
    ensures
        field(with_field(raw, lsb, width, value), lsb, width) == value & ones(width),
{
    assert(field(with_field(raw, lsb, width, value), lsb, width) == value & ones(width))
        by (bit_vector)
        requires
            1 <= width <= 32,
            lsb + width <= 32,
    ;
}

/// A value that fits a field reads back unchanged.
pub proof fn lemma_field_reads_back_exact(raw: u32, lsb: u32, width: u32, value: u32)
    requires
        is_field(lsb, width),
        width < 32,
        value < (1u32 << width),
    ensures
        field(with_field(raw, lsb, width, value), lsb, width) == value,
{
    lemma_field_reads_back(raw, lsb, width, value);
    assert(value & ones(width) == value) by (bit_vector)
        requires
            1 <= width < 32,
            value < (1u32 << width),
    ;
}

/// Writing a field leaves every field that shares no bit with it unchanged.
pub proof fn lemma_other_field_unchanged(
    raw: u32,
    lsb: u32,
    width: u32,
    value: u32,
    other_lsb: u32,
    other_width: u32,
)
    requires
        is_field(lsb, width),
        is_field(other_lsb, other_width),
        lsb + width <= other_lsb || other_lsb + other_width <= lsb,
    ensures
        field(with_field(raw, lsb, width, value), other_lsb, other_width) == field(
            raw,
            other_lsb,
            other_width,
        ),
{
    assert(field(with_field(raw, lsb, width, value), other_lsb, other_width) == field(
        raw,
        other_lsb,
        other_width,
    )) by (bit_vector)
        requires
            1 <= width <= 32,
            lsb + width <= 32,
            1 <= other_width <= 32,
            other_lsb + other_width <= 32,
            lsb + width <= other_lsb || other_lsb + other_width <= lsb,
    ;
}

/// A bit reads back what was written to it.
pub proof fn lemma_bit_reads_back(raw: u32, n: u32, value: bool)
    requires
        n < 32,
    ensures
        bit(with_bit(raw, n, value), n) == value,
{
    assert((1u32 << 1u32) == 2u32) by (bit_vector);
    lemma_field_reads_back_exact(
        raw,
        n,
        1,
        if value {
            1u32
        } else {
            0u32
        },
    );
}

/// Writing a bit leaves every other bit unchanged.
pub proof fn lemma_other_bit_unchanged(raw: u32, n: u32, value: bool, other: u32)
    requires
        n < 32,
        other < 32,
        n != other,
    ensures
        bit(with_bit(raw, n, value), other) == bit(raw, other),
{
    lemma_other_field_unchanged(
        raw,
        n,
        1,
        if value {
            1u32
        } else {
            0u32
        },
        other,
        1,
    );
}

/// The word that four bytes hold, lowest byte first.
pub open spec fn word_of(bytes: Seq<u8>) -> u32 {
    (bytes[0] + 0x100 * bytes[1] + 0x1_0000 * bytes[2] + 0x100_0000 * bytes[3]) as u32
}

/// The four bytes of a word, lowest byte first.
pub open spec fn bytes_of(word: u32) -> Seq<u8> {
    seq![
        (word % 0x100) as u8,
        (word / 0x100 % 0x100) as u8,
        (word / 0x1_0000 % 0x100) as u8,
        (word / 0x100_0000) as u8,
    ]
}

/// The two bytes of a 16-bit value, highest byte first.
pub open spec fn be_bytes_of(half: u16) -> Seq<u8> {
    seq![(half / 0x100) as u8, (half % 0x100) as u8]
}

/// Words lie in memory lowest byte first, and instructions and checksums are sent highest byte
/// first.
pub proof fn lemma_byte_order(word: u32, bytes: Seq<u8>, half: u16)
    requires
        bytes.len() == 4,
    ensures
        bytes_of(word).len() == 4,
        word == bytes_of(word)[0] + 0x100 * bytes_of(word)[1] + 0x1_0000 * bytes_of(word)[2]
            + 0x100_0000 * bytes_of(word)[3],
        word_of(bytes) == bytes[0] + 0x100 * bytes[1] + 0x1_0000 * bytes[2] + 0x100_0000 * bytes[3],
        be_bytes_of(half).len() == 2,
        half == 0x100 * be_bytes_of(half)[0] + be_bytes_of(half)[1],
{
}

/// A word is recovered from its bytes.
pub proof fn lemma_word_of_bytes_of(word: u32)
    ensures
        word_of(bytes_of(word)) == word,
{
}

/// Four bytes are recovered from the word that they hold.
pub proof fn lemma_bytes_of_word_of(bytes: Seq<u8>)
    requires
        bytes.len() == 4,
    ensures
        bytes_of(word_of(bytes)) == bytes,
{
    let word = word_of(bytes);
    assert(word / 0x100 == bytes[1] + 0x100 * bytes[2] + 0x1_0000 * bytes[3]);
    assert(word / 0x1_0000 == bytes[2] + 0x100 * bytes[3]);
    assert(word / 0x100_0000 == bytes[3]);
    assert(word % 0x100 == bytes[0]);
    assert(word / 0x100 % 0x100 == bytes[1]);
    assert(word / 0x1_0000 % 0x100 == bytes[2]);
    assert(bytes_of(word) =~= bytes);
}

/// Reads the little-endian word at `offset`.
pub fn word_at(bytes: &[u8], offset: usize) -> (word: u32)
    requires
        offset + 4 <= bytes@.len(),
    ensures
        word == word_of(bytes@.subrange(offset as int, offset + 4)),
{
    bytes[offset] as u32 + 0x100 * (bytes[offset + 1] as u32) + 0x1_0000 * (bytes[offset
        + 2] as u32) + 0x100_0000 * (bytes[offset + 3] as u32)
}

/// The little-endian bytes of a word.
pub fn word_bytes(word: u32) -> (bytes: Vec<u8>)
    ensures
        bytes@ == bytes_of(word),
{
    let mut bytes: Vec<u8> = Vec::new();
    bytes.push((word % 0x100) as u8);
    bytes.push((word / 0x100 % 0x100) as u8);
    bytes.push((word / 0x1_0000 % 0x100) as u8);
    bytes.push((word / 0x100_0000) as u8);
    bytes
}

/// A copy of `bytes[from..to]`.
pub fn copy_range(bytes: &[u8], from: usize, to: usize) -> (copy: Vec<u8>)
    requires
        from <= to <= bytes@.len(),
    ensures
        copy@ == bytes@.subrange(from as int, to as int),
{
    let mut copy: Vec<u8> = Vec::new();
    let mut i: usize = from;
    while i < to
        invariant
            from <= i <= to <= bytes@.len(),
            copy@ == bytes@.subrange(from as int, i as int),
        decreases to - i,
    {
        copy.push(bytes[i]);
        i += 1;
        assert(copy@ =~= bytes@.subrange(from as int, i as int));
    }
    copy
}

} // verus!
