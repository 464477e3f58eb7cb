//! The CRC-32 checksum used by the named-property hash routing.

use vstd::prelude::*;

verus! {

/// The CRC-32/ISO-HDLC checksum of a byte string.
pub uninterp spec fn crc32_of(data: Seq<u8>) -> u32;

/// Relies on crc::Crc with the CRC-32/ISO-HDLC algorithm from the crc
/// catalogue: the checksum is a function of the input bytes alone.
#[verifier::external_body]
pub(crate) fn crc32(data: &[u8]) -> (r: u32)
    ensures
        r == crc32_of(data@),
{
    crc::Crc::<u32>::new(&crc::CRC_32_ISO_HDLC).checksum(data)
}

} // verus!
