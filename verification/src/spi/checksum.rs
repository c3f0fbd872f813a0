//! The checksum of the device's CRC-protected instructions (datasheet section 4.3.1).

use vstd::prelude::*;

verus! {

/// One bit of the checksum: polynomial 0x8005, highest bit first.
pub open spec fn crc16_bit(crc: u16) -> u16 {
    if crc & 0x8000 != 0 {
        (crc << 1) ^ 0x8005
    } else {
        crc << 1
    }
}

/// One byte of the checksum: the byte is added at the top, then eight bits are shifted out.
pub open spec fn crc16_byte(crc: u16, byte: u8) -> u16 {
    crc16_bit(
        crc16_bit(
            crc16_bit(
                crc16_bit(
                    crc16_bit(
                        crc16_bit(crc16_bit(crc16_bit(crc ^ ((byte as u16) << 8)))),
                    ),
                ),
            ),
        ),
    )
}

/// CRC-16/CMS: polynomial 0x8005, initial value 0xFFFF, no reflection and no final XOR.
pub open spec fn crc16_cms(bytes: Seq<u8>) -> u16
    decreases bytes.len(),
{
    if bytes.len() == 0 {
        0xFFFF
    } else {
        crc16_byte(crc16_cms(bytes.drop_last()), bytes.last())
    }
}

/// CRC-16/CMS over the instruction header and the data, as the device computes it.
///
/// Calls `crc::Crc::<u16, crc::NoTable>::new` with `crc::CRC_16_CMS`, and `digest`, `update`
/// and `finalize` on it. Trusted: the digest of that algorithm after updates with `header` and
/// then `data` is the checksum of the two one behind the other, which by the catalogue's
/// parameters of CRC-16/CMS (width 16, polynomial 0x8005, initial value 0xffff, neither input
/// nor output reflected, final XOR 0) is the bit-serial checksum stated here.
#[verifier::external_body]
pub(crate) fn crc_of(header: &[u8], data: &[u8]) -> (crc: u16)
    ensures
        crc == crc16_cms(header@ + data@),
{
    let crc = crc::Crc::<u16, crc::NoTable>::new(&crc::CRC_16_CMS);
    let mut digest = crc.digest();
    digest.update(header);
    digest.update(data);
    digest.finalize()
}

/// The checksum starts at 0xFFFF and takes in one byte after the other; a byte is added to its
/// upper half. Each bit doubles it, and adds the polynomial if the highest bit was set.
pub proof fn lemma_checksum(bytes: Seq<u8>, byte: u8, crc: u16)
    ensures
        crc16_cms(Seq::empty()) == 0xFFFF,
        crc16_cms(bytes.push(byte)) == crc16_byte(crc16_cms(bytes), byte),
        crc16_byte(crc, byte) == crc16_byte(crc ^ ((byte as u16) * 0x100) as u16, 0),
        crc < 0x8000 ==> crc16_bit(crc) == 2 * crc,
        crc >= 0x8000 ==> crc16_bit(crc) == ((2 * crc) % 0x1_0000) as u16 ^ 0x8005,
{
    assert(bytes.push(byte).drop_last() =~= bytes);
    let shifted = ((byte as u16) * 0x100) as u16;
    assert((crc < 0x8000 <==> crc & 0x8000 == 0) && (crc < 0x8000 ==> crc << 1 == 2 * crc) && (crc
        >= 0x8000 ==> crc << 1 == (2 * crc) % 0x1_0000) && (byte as u16) << 8 == ((byte as u16)
        * 0x100) as u16 && (crc ^ shifted) ^ (0u16 << 8) == crc ^ shifted) by (bit_vector);
}

} // verus!
