//! OLE GUIDs, normalised to a single 128-bit value.
//!
//! On disk the first three GUID fields (4, 2 and 2 bytes) are stored
//! little-endian and the last two (2 and 6 bytes) big-endian; parsing
//! reorders them so that the 128-bit value reads as the canonical
//! hyphenated form.

use vstd::prelude::*;
use crate::Error;

verus! {

/// A GUID as its canonical 128-bit value.
#[derive(Copy, Clone, Debug, PartialEq, Eq, Hash, Structural)]
pub struct Guid(pub u128);

/// The canonical 128-bit value of the 16 stored bytes at the head of `b`,
/// with the three little-endian fields put back in order.
pub open spec fn guid_u128(b: Seq<u8>) -> u128
    recommends
        b.len() >= 16,
{
    (b[3] * 0x0100_0000_0000_0000_0000_0000_0000_0000 + b[2]
        * 0x0001_0000_0000_0000_0000_0000_0000_0000 + b[1]
        * 0x0000_0100_0000_0000_0000_0000_0000_0000 + b[0]
        * 0x0000_0001_0000_0000_0000_0000_0000_0000 + b[5]
        * 0x0000_0000_0100_0000_0000_0000_0000_0000 + b[4]
        * 0x0000_0000_0001_0000_0000_0000_0000_0000 + b[7]
        * 0x0000_0000_0000_0100_0000_0000_0000_0000 + b[6]
        * 0x0000_0000_0000_0001_0000_0000_0000_0000 + b[8]
        * 0x0000_0000_0000_0000_0100_0000_0000_0000 + b[9]
        * 0x0000_0000_0000_0000_0001_0000_0000_0000 + b[10]
        * 0x0000_0000_0000_0000_0000_0100_0000_0000 + b[11]
        * 0x0000_0000_0000_0000_0000_0001_0000_0000 + b[12]
        * 0x0000_0000_0000_0000_0000_0000_0100_0000 + b[13]
        * 0x0000_0000_0000_0000_0000_0000_0001_0000 + b[14]
        * 0x0000_0000_0000_0000_0000_0000_0000_0100 + b[15]) as u128
}

/// Parses the 16 bytes at the head of `data` as an OLE GUID.
pub fn parse_guid(data: &[u8]) -> (r: Result<Guid, Error>)
    ensures
        data@.len() >= 16 ==> r == Ok::<Guid, Error>(Guid(guid_u128(data@))),
        data@.len() < 16 ==> r == Err::<Guid, Error>(Error::ShortInput),
{
    if data.len() < 16 {
        return Err(Error::ShortInput);
    }
    let v: u128 = (data[3] as u128) * 0x0100_0000_0000_0000_0000_0000_0000_0000 + (data[2] as u128)
        * 0x0001_0000_0000_0000_0000_0000_0000_0000 + (data[1] as u128)
        * 0x0000_0100_0000_0000_0000_0000_0000_0000 + (data[0] as u128)
        * 0x0000_0001_0000_0000_0000_0000_0000_0000 + (data[5] as u128)
        * 0x0000_0000_0100_0000_0000_0000_0000_0000 + (data[4] as u128)
        * 0x0000_0000_0001_0000_0000_0000_0000_0000 + (data[7] as u128)
        * 0x0000_0000_0000_0100_0000_0000_0000_0000 + (data[6] as u128)
        * 0x0000_0000_0000_0001_0000_0000_0000_0000 + (data[8] as u128)
        * 0x0000_0000_0000_0000_0100_0000_0000_0000 + (data[9] as u128)
        * 0x0000_0000_0000_0000_0001_0000_0000_0000 + (data[10] as u128)
        * 0x0000_0000_0000_0000_0000_0100_0000_0000 + (data[11] as u128)
        * 0x0000_0000_0000_0000_0000_0001_0000_0000 + (data[12] as u128)
        * 0x0000_0000_0000_0000_0000_0000_0100_0000 + (data[13] as u128)
        * 0x0000_0000_0000_0000_0000_0000_0001_0000 + (data[14] as u128)
        * 0x0000_0000_0000_0000_0000_0000_0000_0100 + (data[15] as u128);
    Ok(Guid(v))
}

} // verus!
