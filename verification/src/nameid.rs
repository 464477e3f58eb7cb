//! The named-property map: the GUID, String and Entry streams of the
//! `__nameid_version1.0` storage, and the hash routing that derives the
//! bucket stream name for a named property.

use vstd::prelude::*;
use vstd::string::StringExecFns;
use crate::Error;
use crate::bytes::{hex_seq, le16, le32, utf16_decode, utf16_units};
use crate::guid::{Guid, guid_u128, parse_guid};
use crate::property_sets::{PropertySet, property_set_of_guid};

verus! {

/// How a named property is identified inside its property set: by number
/// or by name.
#[derive(Copy, Clone, Debug, PartialEq, Eq, Hash, Structural)]
pub enum PropertyKind {
    Numerical,
    String,
}

/// The identifier field of an entry record: a numeric LID, or the decoded
/// name read from the string stream.
#[derive(Clone, Debug, PartialEq, Eq, Hash)]
pub enum PropertyId {
    Number(u32),
    String(String),
}

/// The mathematical content of a [`PropertyId`].
pub enum PropertyIdView {
    Number(u32),
    String(Seq<char>),
}

impl View for PropertyId {
    type V = PropertyIdView;

    open spec fn view(&self) -> PropertyIdView {
        match self {
            PropertyId::Number(n) => PropertyIdView::Number(*n),
            PropertyId::String(s) => PropertyIdView::String(s@),
        }
    }
}

/// A well-known property, paired with how it is identified.
pub struct Property {
    pub kind: PropertyKind,
    pub id: PropertyId,
}

/// The GUID-index field of an entry record: two built-in property sets,
/// then slots of the GUID stream.
#[derive(Copy, Clone, Debug, PartialEq, Eq, Hash, Structural)]
pub enum GuidIndex {
    PsMapi,
    PublicStrings,
    StreamIndex(u16),
}

/// The GUID index a non-zero raw field value decodes to: `1` and `2` are
/// the built-ins, `n >= 3` is slot `n - 3` of the GUID stream.
pub open spec fn guid_index_of(value: u16) -> GuidIndex
    recommends
        value >= 1,
{
    if value == 1 {
        GuidIndex::PsMapi
    } else if value == 2 {
        GuidIndex::PublicStrings
    } else {
        GuidIndex::StreamIndex((value - 3) as u16)
    }
}

/// The raw field value of a GUID index.
pub open spec fn guid_index_num(g: GuidIndex) -> u16
    recommends
        g.wf(),
{
    match g {
        GuidIndex::PsMapi => 1,
        GuidIndex::PublicStrings => 2,
        GuidIndex::StreamIndex(n) => (n + 3) as u16,
    }
}

impl GuidIndex {
    /// A stream slot leaves room to add the two built-ins back.
    pub open spec fn wf(self) -> bool {
        match self {
            GuidIndex::StreamIndex(n) => n <= 0xFFFC,
            _ => true,
        }
    }

    /// Decodes a raw GUID-index field, which must be non-zero.
    pub fn new(value: u16) -> (r: Self)
        requires
            value >= 1,
        ensures
            r == guid_index_of(value),
            r.wf(),
    {
        if value == 1 {
            Self::PsMapi
        } else if value == 2 {
            Self::PublicStrings
        } else {
            Self::StreamIndex(value - 3)
        }
    }

    /// The raw field value of this GUID index.
    pub fn as_num(self) -> (r: u16)
        requires
            self.wf(),
        ensures
            r == guid_index_num(self),
    {
        match self {
            GuidIndex::PsMapi => 1,
            GuidIndex::PublicStrings => 2,
            GuidIndex::StreamIndex(n) => n + 3,
        }
    }
}

// ---------------------------------------------------------------------------
// The three fixed streams of the name-id storage
// ---------------------------------------------------------------------------

/// The string stream: concatenated length-prefixed UTF-16LE names.
#[derive(Debug)]
pub struct StringStream {
    pub buffer: Vec<u8>,
}

/// The bytes of the string-stream entry whose length prefix starts at
/// `index`.
pub open spec fn string_bytes_of(ss: Seq<u8>, index: int) -> Result<Seq<u8>, Error> {
    if index < 0 || index + 4 > ss.len() {
        Err(Error::ShortInput)
    } else if index + 4 + le32(ss.skip(index)) > ss.len() {
        Err(Error::ShortInput)
    } else {
        Ok(ss.subrange(index + 4, index + 4 + le32(ss.skip(index))))
    }
}

/// The decoded string-stream entry at `index`.
pub open spec fn string_entry_of(ss: Seq<u8>, index: int) -> Result<Seq<char>, Error> {
    match string_bytes_of(ss, index) {
        Err(e) => Err(e),
        Ok(bytes) => if bytes.len() % 2 != 0 {
            Err(Error::OddByteCount)
        } else {
            Ok(utf16_decode(utf16_units(bytes)))
        },
    }
}

/// The consecutive entries of a string stream, each aligned to the next
/// four-byte boundary after its payload; reading stops cleanly at the
/// first entry whose declared length exceeds the remaining buffer.
pub open spec fn string_entries_of(b: Seq<u8>) -> Seq<Seq<u8>>
    decreases b.len(),
{
    if b.len() < 4 {
        Seq::<Seq<u8>>::empty()
    } else {
        let len = le32(b) as int;
        if 4 + len > b.len() {
            Seq::<Seq<u8>>::empty()
        } else {
            let entry = b.subrange(4, 4 + len);
            let step = len + len % 4;
            if 4 + step > b.len() {
                seq![entry]
            } else {
                seq![entry] + string_entries_of(b.skip(4 + step))
            }
        }
    }
}

impl StringStream {
    pub fn new(buffer: Vec<u8>) -> (r: Self)
        ensures
            r.buffer == buffer,
    {
        Self { buffer }
    }

    /// The raw bytes of the entry whose length prefix starts at `index`.
    pub fn get_bytes(&self, index: usize) -> (r: Result<Vec<u8>, Error>)
        ensures
            match r {
                Ok(v) => string_bytes_of(self.buffer@, index as int) == Ok::<Seq<u8>, Error>(v@),
                Err(e) => string_bytes_of(self.buffer@, index as int) == Err::<Seq<u8>, Error>(e),
            },
    {
        if index >= self.buffer.len() || self.buffer.len() - index < 4 {
            return Err(Error::ShortInput);
        }
        let length = match crate::bytes::read_u32_le(
            vstd::slice::slice_subrange(self.buffer.as_slice(), index, index + 4),
        ) {
            Ok(v) => v,
            Err(e) => {
                proof {
                    assert(false);
                }
                return Err(e);
            },
        };
        proof {
            assert(forall|k: int|
                0 <= k < 4 ==> self.buffer@.subrange(index as int, index as int + 4)[k]
                    == self.buffer@.skip(index as int)[k]);
            assert(le32(self.buffer@.subrange(index as int, index as int + 4)) == le32(
                self.buffer@.skip(index as int),
            ));
        }
        if length as usize > self.buffer.len() - index - 4 {
            return Err(Error::ShortInput);
        }
        match crate::bytes::sub_bytes(self.buffer.as_slice(), index + 4, index + 4
            + length as usize) {
            Ok(v) => Ok(v),
            Err(e) => {
                proof {
                    assert(false);
                }
                Err(e)
            },
        }
    }

    /// The decoded entry whose length prefix starts at `index`.
    pub fn get(&self, index: usize) -> (r: Result<String, Error>)
        ensures
            match r {
                Ok(s) => string_entry_of(self.buffer@, index as int) == Ok::<Seq<char>, Error>(s@),
                Err(e) => string_entry_of(self.buffer@, index as int) == Err::<Seq<char>, Error>(e),
            },
    {
        match self.get_bytes(index) {
            Ok(bytes) => crate::bytes::read(bytes.as_slice()),
            Err(e) => Err(e),
        }
    }

    /// All entries of the stream in order, stopping cleanly at the first
    /// truncated entry.
    pub fn entries(&self) -> (r: Vec<Vec<u8>>)
        ensures
            r@.map_values(|v: Vec<u8>| v@) == string_entries_of(self.buffer@),
    {
        let mut out: Vec<Vec<u8>> = Vec::new();
        let mut pos: usize = 0;
        let len = self.buffer.len();
        proof {
            assert(self.buffer@.skip(0) =~= self.buffer@);
            assert(out@.map_values(|v: Vec<u8>| v@) + string_entries_of(self.buffer@)
                =~= string_entries_of(self.buffer@));
        }
        while pos < len
            invariant
                pos <= len,
                len == self.buffer@.len(),
                string_entries_of(self.buffer@) == out@.map_values(|v: Vec<u8>| v@)
                    + string_entries_of(self.buffer@.skip(pos as int)),
            decreases len - pos,
        {
            let ghost tail = self.buffer@.skip(pos as int);
            let ghost prior = out@;
            if len - pos < 4 {
                proof {
                    assert(string_entries_of(tail) =~= Seq::<Seq<u8>>::empty());
                    assert(out@.map_values(|v: Vec<u8>| v@) + string_entries_of(tail)
                        =~= out@.map_values(|v: Vec<u8>| v@));
                }
                return out;
            }
            let elen = match crate::bytes::read_u32_le(
                vstd::slice::slice_subrange(self.buffer.as_slice(), pos, pos + 4),
            ) {
                Ok(v) => v,
                Err(e) => {
                    proof {
                        assert(false);
                    }
                    return out;
                },
            };
            proof {
                assert(forall|k: int|
                    0 <= k < 4 ==> self.buffer@.subrange(pos as int, pos as int + 4)[k]
                        == tail[k]);
                assert(le32(self.buffer@.subrange(pos as int, pos as int + 4)) == le32(tail));
            }
            if elen as usize > len - pos - 4 {
                proof {
                    assert(string_entries_of(tail) =~= Seq::<Seq<u8>>::empty());
                    assert(out@.map_values(|v: Vec<u8>| v@) + string_entries_of(tail)
                        =~= out@.map_values(|v: Vec<u8>| v@));
                }
                return out;
            }
            let entry = match crate::bytes::sub_bytes(self.buffer.as_slice(), pos + 4, pos + 4
                + elen as usize) {
                Ok(v) => v,
                Err(e) => {
                    proof {
                        assert(false);
                    }
                    return out;
                },
            };
            proof {
                assert(entry@ =~= tail.subrange(4, 4 + le32(tail) as int));
            }
            out.push(entry);
            let step = elen as usize + elen as usize % 4;
            if step > len - pos - 4 {
                proof {
                    assert(4 + (le32(tail) + le32(tail) % 4) > tail.len());
                    assert(string_entries_of(tail) =~= seq![tail.subrange(4, 4 + le32(tail) as int)]);
                    assert(out@.map_values(|v: Vec<u8>| v@) =~= prior.map_values(|v: Vec<u8>| v@)
                        + string_entries_of(tail));
                }
                proof {
                    assert(string_entries_of(self.buffer@) == out@.map_values(|v: Vec<u8>| v@));
                }
                return out;
            }
            proof {
                assert(4 + (le32(tail) + le32(tail) % 4) <= tail.len());
                assert(tail.skip(4 + (le32(tail) + le32(tail) % 4) as int) =~= self.buffer@.skip(
                    pos + 4 + step,
                ));
                assert(string_entries_of(tail) =~= seq![tail.subrange(4, 4 + le32(tail) as int)]
                    + string_entries_of(self.buffer@.skip(pos + 4 + step)));
                assert(out@.map_values(|v: Vec<u8>| v@) =~= prior.map_values(|v: Vec<u8>| v@)
                    + seq![tail.subrange(4, 4 + le32(tail) as int)]);
                assert(out@.map_values(|v: Vec<u8>| v@) + string_entries_of(
                    self.buffer@.skip(pos + 4 + step),
                ) =~= string_entries_of(self.buffer@));
            }
            pos = pos + 4 + step;
        }
        proof {
            assert(string_entries_of(self.buffer@.skip(pos as int)) =~= Seq::<Seq<u8>>::empty());
            assert(out@.map_values(|v: Vec<u8>| v@) + string_entries_of(
                self.buffer@.skip(pos as int),
            ) =~= out@.map_values(|v: Vec<u8>| v@));
        }
        out
    }
}

/// The GUID stream: concatenated 16-byte GUIDs.
#[derive(Debug)]
pub struct GuidStream {
    pub buffer: Vec<u8>,
}

/// The GUID at a slot of the GUID stream.
pub open spec fn guid_slot_of(gs: Seq<u8>, index: int) -> Result<Guid, Error> {
    if index < 0 || 16 * index + 16 > gs.len() {
        Err(Error::ShortInput)
    } else {
        Ok(Guid(guid_u128(gs.skip(16 * index))))
    }
}

impl GuidStream {
    pub fn new(buffer: Vec<u8>) -> (r: Self)
        ensures
            r.buffer == buffer,
    {
        Self { buffer }
    }

    /// The sixteen raw bytes of slot `index`.
    pub fn get_bytes(&self, index: usize) -> (r: Result<Vec<u8>, Error>)
        ensures
            r is Ok <==> 16 * index + 16 <= self.buffer@.len(),
            r matches Ok(v) ==> v@ == self.buffer@.subrange(16 * index as int, 16 * index as int
                + 16),
            r is Err ==> r == Err::<Vec<u8>, Error>(Error::ShortInput),
    {
        let len = self.buffer.len();
        proof {
            vstd::arithmetic::div_mod::lemma_fundamental_div_mod(len as int, 16);
        }
        if index < len / 16 {
            crate::bytes::sub_bytes(self.buffer.as_slice(), 16 * index, 16 * index + 16)
        } else {
            Err(Error::ShortInput)
        }
    }

    /// The GUID at slot `index`.
    pub fn get(&self, index: usize) -> (r: Result<Guid, Error>)
        ensures
            match r {
                Ok(g) => guid_slot_of(self.buffer@, index as int) == Ok::<Guid, Error>(g),
                Err(e) => guid_slot_of(self.buffer@, index as int) == Err::<Guid, Error>(e),
            },
    {
        match self.get_bytes(index) {
            Ok(bytes) => {
                proof {
                    assert(forall|k: int|
                        0 <= k < 16 ==> #[trigger] self.buffer@.subrange(
                            16 * index as int,
                            16 * index as int + 16,
                        )[k] == self.buffer@.skip(16 * index as int)[k]);
                    assert(guid_u128(
                        self.buffer@.subrange(16 * index as int, 16 * index as int + 16),
                    ) == guid_u128(self.buffer@.skip(16 * index as int)));
                }
                match parse_guid(bytes.as_slice()) {
                    Ok(g) => Ok(g),
                    Err(e) => {
                        proof {
                            assert(false);
                        }
                        Err(e)
                    },
                }
            },
            Err(e) => Err(e),
        }
    }
}

/// The entry stream: an array of eight-byte records, one per named
/// property slot.
#[derive(Debug)]
pub struct EntryStream {
    pub buffer: Vec<u8>,
}

impl EntryStream {
    pub fn new(buffer: Vec<u8>) -> (r: Self)
        ensures
            r.buffer == buffer,
    {
        Self { buffer }
    }

    /// The eight raw bytes of record `index`, if the stream is long enough.
    pub fn get_bytes(&self, index: usize) -> (r: Option<Vec<u8>>)
        ensures
            r is Some <==> 8 * index + 8 <= self.buffer@.len(),
            r matches Some(v) ==> v@ == self.buffer@.subrange(8 * index as int, 8 * index as int
                + 8),
    {
        let len = self.buffer.len();
        proof {
            vstd::arithmetic::div_mod::lemma_fundamental_div_mod(len as int, 8);
        }
        if index < len / 8 {
            match crate::bytes::sub_bytes(self.buffer.as_slice(), 8 * index, 8 * index + 8) {
                Ok(v) => Some(v),
                Err(_) => {
                    proof {
                        assert(false);
                    }
                    None
                },
            }
        } else {
            None
        }
    }
}

// ---------------------------------------------------------------------------
// Kind and index decoding
// ---------------------------------------------------------------------------

/// What the four kind-and-index bytes of a record decode to: the property
/// index, the GUID index and the property kind.  The raw GUID-index field
/// must be non-zero.
pub open spec fn kind_index_of(b: Seq<u8>) -> Result<(u16, GuidIndex, PropertyKind), Error>
    recommends
        b.len() >= 4,
{
    if le16(b) >> 1 < 1 {
        Err(Error::InvalidGuidIndex)
    } else {
        Ok(
            (
                le16(b.skip(2)),
                guid_index_of(le16(b) >> 1),
                if b[0] & 1 == 1 {
                    PropertyKind::String
                } else {
                    PropertyKind::Numerical
                },
            ),
        )
    }
}

/// Decodes the kind-and-index half of an entry record.
pub fn parse_kind_index(data: [u8; 4]) -> (r: Result<(u16, GuidIndex, PropertyKind), Error>)
    ensures
        match r {
            Ok(t) => kind_index_of(data@) == Ok::<(u16, GuidIndex, PropertyKind), Error>(t) && t.1.wf(),
            Err(e) => kind_index_of(data@) == Err::<(u16, GuidIndex, PropertyKind), Error>(e),
        },
{
    let property_kind = if data[0] & 0x1 == 1 {
        PropertyKind::String
    } else {
        PropertyKind::Numerical
    };
    let raw = data[0] as u16 + (data[1] as u16) * 0x100;
    let property_index = data[2] as u16 + (data[3] as u16) * 0x100;
    proof {
        assert(data@.skip(2)[0] == data@[2] && data@.skip(2)[1] == data@[3]);
        assert(raw == le16(data@));
        assert(property_index == le16(data@.skip(2)));
    }
    let shifted = raw >> 1u16;
    if shifted < 1 {
        return Err(Error::InvalidGuidIndex);
    }
    let guid_index = GuidIndex::new(shifted);
    proof {
        assert(shifted >= 3 ==> shifted - 3 <= 0xFFFC) by (bit_vector)
            requires
                shifted == raw >> 1u16,
        ;
    }
    Ok((property_index, guid_index, property_kind))
}

// ---------------------------------------------------------------------------
// Bucket stream-name derivation
// ---------------------------------------------------------------------------

/// The hash-bucket stream id for an identifier, GUID index and kind bit:
/// `0x1000` plus the identifier XOR the shifted index, modulo `0x1F`.
pub open spec fn stream_id_of(id_or_crc: u32, guid_num: u16, kind_bit: u32) -> u16
    recommends
        kind_bit <= 1,
{
    (0x1000 + ((id_or_crc ^ (((guid_num as u32) << 1u32) | kind_bit)) % 0x1F)) as u16
}

/// The sub-stream name a bucket stream id maps to: the hexadecimal form
/// of the id shifted over the trailing stream-type word.
pub open spec fn stream_name_of(stream_id: u16) -> Seq<char> {
    "__substg1.0_"@ + hex_seq(((stream_id as u32) << 16u32) | 0x102, 8)
}

/// Computes the bucket stream id.
pub fn derive_stream_id(id_or_crc: u32, guid_num: u16, kind_bit: u32) -> (r: u16)
    requires
        kind_bit <= 1,
    ensures
        r == stream_id_of(id_or_crc, guid_num, kind_bit),
        0x1000 <= r < 0x101F,
{
    let mix = id_or_crc ^ (((guid_num as u32) << 1u32) | kind_bit);
    let rem = mix % 0x1F;
    0x1000 + rem as u16
}

/// Formats the bucket stream name for a stream id.
pub fn derive_stream_name(stream_id: u16) -> (r: String)
    ensures
        r@ == stream_name_of(stream_id),
{
    let hex_id: u32 = ((stream_id as u32) << 16u32) | 0x102;
    let mut s = String::from_str("__substg1.0_");
    let hex = crate::bytes::hex_upper(hex_id, 8);
    s.append(hex.as_str());
    s
}

/// Splitting off the low hexadecimal digit of `16 * a + b` splits `b`.
proof fn lemma_split16(n: u32, a: int, b: int)
    requires
        0 <= b,
        0 <= a,
        n == 16 * a + b,
    ensures
        n as int / 16 == a + b / 16,
        n as int % 16 == b % 16,
{
    vstd::arithmetic::div_mod::lemma_fundamental_div_mod(b, 16);
    vstd::arithmetic::div_mod::lemma_fundamental_div_mod_converse(
        n as int,
        16,
        a + b / 16,
        b % 16,
    );
}

/// The shape of every derived bucket stream name: the id lies in
/// `[0x1000, 0x101F)`, and the name is the fixed prefix, a `1`, three more
/// hexadecimal digits, and the trailing stream-type word `0102`.
pub proof fn lemma_stream_name_shape(id_or_crc: u32, guid_num: u16, kind_bit: u32)
    requires
        kind_bit <= 1,
    ensures
        0x1000 <= stream_id_of(id_or_crc, guid_num, kind_bit) < 0x101F,
        stream_name_of(stream_id_of(id_or_crc, guid_num, kind_bit)) == "__substg1.0_"@ + hex_seq(
            stream_id_of(id_or_crc, guid_num, kind_bit) as u32,
            4,
        ) + seq!['0', '1', '0', '2'],
        hex_seq(stream_id_of(id_or_crc, guid_num, kind_bit) as u32, 4).len() == 4,
        hex_seq(stream_id_of(id_or_crc, guid_num, kind_bit) as u32, 4)[0] == '1',
        forall|k: int|
            0 <= k < 4 ==> crate::bytes::is_hex_upper_char(
                #[trigger] hex_seq(stream_id_of(id_or_crc, guid_num, kind_bit) as u32, 4)[k],
            ),
{
    let sid = stream_id_of(id_or_crc, guid_num, kind_bit);
    let mix = id_or_crc ^ (((guid_num as u32) << 1u32) | kind_bit);
    assert(0 <= mix % 0x1F < 0x1F);
    assert(0x1000 <= sid < 0x101F);
    let hex_id = ((sid as u32) << 16u32) | 0x102;
    assert(hex_id == sid * 0x10000 + 0x102) by (bit_vector)
        requires
            0x1000 <= sid < 0x101F,
            hex_id == ((sid as u32) << 16u32) | 0x102,
    ;
    let s4 = sid as u32;
    // Peel the four low digits `0102` off the hexadecimal rendering.
    let n0 = hex_id;
    lemma_split16(n0, s4 as int * 0x1000, 0x102);
    let n1 = n0 / 16;
    assert(n1 == s4 * 0x1000 + 0x10 && n0 as int % 16 == 2);
    lemma_split16(n1, s4 as int * 0x100, 0x10);
    let n2 = n1 / 16;
    assert(n2 == s4 * 0x100 + 1 && n1 as int % 16 == 0);
    lemma_split16(n2, s4 as int * 0x10, 1);
    let n3 = n2 / 16;
    assert(n3 == s4 * 0x10 && n2 as int % 16 == 1);
    lemma_split16(n3, s4 as int, 0);
    let n4 = n3 / 16;
    assert(n4 == s4 && n3 as int % 16 == 0);
    crate::bytes::lemma_hex_seq_chars(s4, 4);
    assert(hex_seq(hex_id, 8) == hex_seq(n1, 7).push('2'));
    assert(hex_seq(n1, 7) == hex_seq(n2, 6).push('0'));
    assert(hex_seq(n2, 6) == hex_seq(n3, 5).push('1'));
    assert(hex_seq(n3, 5) == hex_seq(s4, 4).push('0'));
    assert(hex_seq(hex_id, 8) =~= hex_seq(s4, 4) + seq!['0', '1', '0', '2']);
    // The leading digit of the id is always 1.
    lemma_split16(s4, s4 as int / 16, s4 as int % 16);
    let t1 = s4 / 16;
    let t2 = t1 / 16;
    let t3 = t2 / 16;
    vstd::arithmetic::div_mod::lemma_div_denominator(s4 as int, 16, 16);
    assert(t2 == s4 as int / 256);
    vstd::arithmetic::div_mod::lemma_div_denominator(s4 as int, 256, 16);
    assert(t3 == s4 as int / 4096);
    assert(t3 == 1);
    assert(hex_seq(s4, 4) == hex_seq(t1, 3).push(crate::bytes::hex_digit_char(
        (s4 % 16) as u8,
    )));
    assert(hex_seq(t1, 3) == hex_seq(t2, 2).push(crate::bytes::hex_digit_char(
        (t1 % 16) as u8,
    )));
    assert(hex_seq(t2, 2) == hex_seq(t3, 1).push(crate::bytes::hex_digit_char(
        (t2 % 16) as u8,
    )));
    assert(hex_seq(t3, 1) == hex_seq(t3 / 16, 0).push(crate::bytes::hex_digit_char(
        (t3 % 16) as u8,
    )));
    crate::bytes::lemma_hex_seq_chars(t1, 3);
    crate::bytes::lemma_hex_seq_chars(t2, 2);
    crate::bytes::lemma_hex_seq_chars(t3, 1);
    assert(hex_seq(s4, 4)[0] == hex_seq(t3, 1)[0]);
    assert(hex_seq(t3, 1)[0] == crate::bytes::hex_digit_char(1));
}

// ---------------------------------------------------------------------------
// Entry records
// ---------------------------------------------------------------------------

/// A decoded record of the entry stream: the property set it names, the
/// named-property slot, the identifier kind, and the derived bucket stream
/// name.
#[derive(Clone, Debug, PartialEq, Eq)]
pub struct PropertyEntry {
    pub property_set: PropertySet,
    pub property_index: u16,
    pub property_kind: PropertyKind,
    pub stream_name: String,
}

/// The mathematical content of a [`PropertyEntry`].
pub struct PropertyEntryView {
    pub property_set: PropertySet,
    pub property_index: u16,
    pub property_kind: PropertyKind,
    pub stream_name: Seq<char>,
}

impl View for PropertyEntry {
    type V = PropertyEntryView;

    open spec fn view(&self) -> PropertyEntryView {
        PropertyEntryView {
            property_set: self.property_set,
            property_index: self.property_index,
            property_kind: self.property_kind,
            stream_name: self.stream_name@,
        }
    }
}

/// The property set an entry record's GUID index names, resolved through
/// the GUID stream for stream slots.
pub open spec fn property_set_of_index(gs: Seq<u8>, gidx: GuidIndex) -> Result<
    PropertySet,
    Error,
> {
    match gidx {
        GuidIndex::PsMapi => Ok(PropertySet::PsMapi),
        GuidIndex::PublicStrings => Ok(PropertySet::PublicStrings),
        GuidIndex::StreamIndex(i) => match guid_slot_of(gs, i as int) {
            Ok(g) => Ok(property_set_of_guid(g)),
            Err(e) => Err(e),
        },
    }
}

/// What an eight-byte entry-stream record decodes to, given the string and
/// GUID streams.  A string-kind record must name a readable string-stream
/// entry; its bucket id hashes the CRC-32 of the raw identifier bytes,
/// while a numeric record hashes the low 16 bits of its LID.
#[verifier::opaque]
pub open spec fn entry_of(ss: Seq<u8>, gs: Seq<u8>, b: Seq<u8>) -> Result<PropertyEntryView, Error>
    recommends
        b.len() >= 8,
{
    match kind_index_of(b.skip(4)) {
        Err(e) => Err(e),
        Ok(t) => match property_set_of_index(gs, t.1) {
            Err(e) => Err(e),
            Ok(set) => match t.2 {
                PropertyKind::Numerical => Ok(
                    PropertyEntryView {
                        property_set: set,
                        property_index: t.0,
                        property_kind: t.2,
                        stream_name: stream_name_of(
                            stream_id_of(le32(b) & 0xFFFF, guid_index_num(t.1), 0),
                        ),
                    },
                ),
                PropertyKind::String => match string_entry_of(ss, le32(b) as int) {
                    Err(e) => Err(e),
                    Ok(_) => Ok(
                        PropertyEntryView {
                            property_set: set,
                            property_index: t.0,
                            property_kind: t.2,
                            stream_name: stream_name_of(
                                stream_id_of(
                                    crate::digest::crc32_of(b.take(4)),
                                    guid_index_num(t.1),
                                    1,
                                ),
                            ),
                        },
                    ),
                },
            },
        },
    }
}

/// Decodes one eight-byte entry-stream record.
pub fn parse_entry(string_stream: &StringStream, guid_stream: &GuidStream, data_slice: [u8; 8]) -> (r:
    Result<PropertyEntry, Error>)
    ensures
        match r {
            Ok(p) => entry_of(string_stream.buffer@, guid_stream.buffer@, data_slice@) == Ok::<
                PropertyEntryView,
                Error,
            >(p@),
            Err(e) => entry_of(string_stream.buffer@, guid_stream.buffer@, data_slice@) == Err::<
                PropertyEntryView,
                Error,
            >(e),
        },
{
    proof {
        reveal(entry_of);
    }
    let tail: [u8; 4] = [data_slice[4], data_slice[5], data_slice[6], data_slice[7]];
    proof {
        assert(tail@ =~= data_slice@.skip(4));
    }
    let (property_index, guid_index, property_kind) = match parse_kind_index(tail) {
        Ok(t) => t,
        Err(e) => {
            return Err(e);
        },
    };
    let property_set = match guid_index {
        GuidIndex::PsMapi => PropertySet::PsMapi,
        GuidIndex::PublicStrings => PropertySet::PublicStrings,
        GuidIndex::StreamIndex(i) => match guid_stream.get(i as usize) {
            Ok(g) => PropertySet::from_uuid(g),
            Err(e) => {
                return Err(e);
            },
        },
    };
    let num = data_slice[0] as u32 + (data_slice[1] as u32) * 0x100 + (data_slice[2] as u32)
        * 0x10000 + (data_slice[3] as u32) * 0x1000000;
    proof {
        assert(num == le32(data_slice@));
    }
    let stream_id = match property_kind {
        PropertyKind::Numerical => derive_stream_id(num & 0xFFFF, guid_index.as_num(), 0),
        PropertyKind::String => {
            match string_stream.get(num as usize) {
                Ok(_name) => {},
                Err(e) => {
                    return Err(e);
                },
            }
            let mut id_bytes: Vec<u8> = Vec::new();
            id_bytes.push(data_slice[0]);
            id_bytes.push(data_slice[1]);
            id_bytes.push(data_slice[2]);
            id_bytes.push(data_slice[3]);
            proof {
                assert(id_bytes@ =~= data_slice@.take(4));
            }
            let checksum = crate::digest::crc32(id_bytes.as_slice());
            derive_stream_id(checksum, guid_index.as_num(), 1)
        },
    };
    let stream_name = derive_stream_name(stream_id);
    Ok(PropertyEntry { property_set, property_index, property_kind, stream_name })
}

/// What the whole entry stream decodes to: one record per eight bytes, in
/// order, the first bad record failing the parse.  The byte count must be
/// a multiple of eight.
pub open spec fn entry_records_of(ss: Seq<u8>, gs: Seq<u8>, b: Seq<u8>) -> Result<
    Seq<PropertyEntryView>,
    Error,
>
    decreases b.len(),
{
    if b.len() % 8 != 0 {
        Err(Error::ShortInput)
    } else if b.len() == 0 {
        Ok(Seq::<PropertyEntryView>::empty())
    } else {
        match entry_of(ss, gs, b.take(8)) {
            Err(e) => Err(e),
            Ok(v) => match entry_records_of(ss, gs, b.skip(8)) {
                Err(e) => Err(e),
                Ok(rest) => Ok(seq![v] + rest),
            },
        }
    }
}

/// Decodes every record of an entry stream.
#[verifier::rlimit(100)]
pub fn parse_properties(string_stream: &StringStream, guid_stream: &GuidStream, data_slice: &[u8]) -> (r:
    Result<Vec<PropertyEntry>, Error>)
    ensures
        match r {
            Ok(v) => entry_records_of(string_stream.buffer@, guid_stream.buffer@, data_slice@)
                == Ok::<Seq<PropertyEntryView>, Error>(v@.map_values(|p: PropertyEntry| p@)),
            Err(e) => entry_records_of(string_stream.buffer@, guid_stream.buffer@, data_slice@)
                == Err::<Seq<PropertyEntryView>, Error>(e),
        },
{
    let ghost ss = string_stream.buffer@;
    let ghost gs = guid_stream.buffer@;
    if data_slice.len() % 8 != 0 {
        proof {
            lemma_entry_records_mod(ss, gs, data_slice@);
        }
        return Err(Error::ShortInput);
    }
    let mut out: Vec<PropertyEntry> = Vec::new();
    let mut pos: usize = 0;
    let len = data_slice.len();
    proof {
        assert(data_slice@.skip(0) =~= data_slice@);
    }
    while pos < len
        invariant
            pos <= len,
            pos % 8 == 0,
            len % 8 == 0,
            len == data_slice@.len(),
            ss == string_stream.buffer@,
            gs == guid_stream.buffer@,
            entry_records_of(ss, gs, data_slice@) == (match entry_records_of(
                ss,
                gs,
                data_slice@.skip(pos as int),
            ) {
                Ok(rest) => Ok::<Seq<PropertyEntryView>, Error>(
                    out@.map_values(|p: PropertyEntry| p@) + rest,
                ),
                Err(e) => Err::<Seq<PropertyEntryView>, Error>(e),
            }),
        decreases len - pos,
    {
        let ghost tail = data_slice@.skip(pos as int);
        let ghost prior = out@;
        proof {
            vstd::arithmetic::div_mod::lemma_mod_adds(pos as int, 8, 8);
        }
        let chunk: [u8; 8] = [
            data_slice[pos],
            data_slice[pos + 1],
            data_slice[pos + 2],
            data_slice[pos + 3],
            data_slice[pos + 4],
            data_slice[pos + 5],
            data_slice[pos + 6],
            data_slice[pos + 7],
        ];
        proof {
            assert(chunk@ =~= tail.take(8));
        }
        let entry = match parse_entry(string_stream, guid_stream, chunk) {
            Ok(p) => p,
            Err(e) => {
                proof {
                    lemma_entry_records_step_err(ss, gs, tail, e);
                }
                return Err(e);
            },
        };
        out.push(entry);
        proof {
            assert(tail.skip(8) =~= data_slice@.skip(pos + 8));
            lemma_entry_records_step_ok(ss, gs, tail, entry@);
            match entry_records_of(ss, gs, data_slice@.skip(pos + 8)) {
                Ok(rest) => {
                    assert(prior.map_values(|p: PropertyEntry| p@) + (seq![entry@] + rest)
                        =~= out@.map_values(|p: PropertyEntry| p@) + rest);
                },
                Err(e) => {},
            }
        }
        pos = pos + 8;
    }
    proof {
        assert(data_slice@.skip(pos as int) =~= Seq::<u8>::empty());
        assert(entry_records_of(ss, gs, data_slice@.skip(pos as int)) == Ok::<
            Seq<PropertyEntryView>,
            Error,
        >(Seq::<PropertyEntryView>::empty()));
        assert(out@.map_values(|p: PropertyEntry| p@) + Seq::<PropertyEntryView>::empty()
            =~= out@.map_values(|p: PropertyEntry| p@));
    }
    Ok(out)
}

/// A bad head record fails the whole entry stream.
proof fn lemma_entry_records_step_err(ss: Seq<u8>, gs: Seq<u8>, b: Seq<u8>, e: Error)
    requires
        b.len() % 8 == 0,
        b.len() != 0,
        entry_of(ss, gs, b.take(8)) == Err::<PropertyEntryView, Error>(e),
    ensures
        entry_records_of(ss, gs, b) == Err::<Seq<PropertyEntryView>, Error>(e),
{
}

/// A good head record prepends to the records of the rest of the stream.
proof fn lemma_entry_records_step_ok(ss: Seq<u8>, gs: Seq<u8>, b: Seq<u8>, v: PropertyEntryView)
    requires
        b.len() % 8 == 0,
        b.len() != 0,
        entry_of(ss, gs, b.take(8)) == Ok::<PropertyEntryView, Error>(v),
    ensures
        entry_records_of(ss, gs, b) == (match entry_records_of(ss, gs, b.skip(8)) {
            Ok(rest) => Ok::<Seq<PropertyEntryView>, Error>(seq![v] + rest),
            Err(e) => Err::<Seq<PropertyEntryView>, Error>(e),
        }),
{
}

/// An entry stream whose length is not a multiple of eight fails.
proof fn lemma_entry_records_mod(ss: Seq<u8>, gs: Seq<u8>, b: Seq<u8>)
    requires
        b.len() % 8 != 0,
    ensures
        entry_records_of(ss, gs, b) == Err::<Seq<PropertyEntryView>, Error>(Error::ShortInput),
{
}

// ---------------------------------------------------------------------------
// The named-property map and its bucket streams
// ---------------------------------------------------------------------------

/// The three parsed streams of the `__nameid_version1.0` storage.
#[derive(Debug)]
pub struct NamedPropertyMapping {
    pub string_stream: StringStream,
    pub guid_stream: GuidStream,
    pub entry_stream: EntryStream,
}

/// What the name-id storage parses to: the raw GUID, string and entry
/// stream buffers; each of the three must be present.
pub open spec fn nameid_spec(s: Map<Seq<char>, Seq<u8>>) -> Result<
    (Seq<u8>, Seq<u8>, Seq<u8>),
    Error,
> {
    let gp = crate::paths::sub_stream_path("__nameid_version1.0"@, "__substg1.0_00020102"@);
    let sp = crate::paths::sub_stream_path("__nameid_version1.0"@, "__substg1.0_00040102"@);
    let ep = crate::paths::sub_stream_path("__nameid_version1.0"@, "__substg1.0_00030102"@);
    if !s.dom().contains(gp) {
        Err(Error::MissingStorage)
    } else if !s.dom().contains(sp) {
        Err(Error::MissingStorage)
    } else if !s.dom().contains(ep) {
        Err(Error::MissingStorage)
    } else {
        Ok((s[gp], s[sp], s[ep]))
    }
}

/// Reads the three fixed streams of the name-id storage.
pub fn parse_named_property_mapping(comp: &mut crate::cfbio::MsgContainer) -> (r: Result<
    NamedPropertyMapping,
    Error,
>)
    ensures
        crate::cfbio::container_streams(*final(comp)) == crate::cfbio::container_streams(
            *old(comp),
        ),
        crate::cfbio::container_entries(*final(comp)) == crate::cfbio::container_entries(
            *old(comp),
        ),
        match r {
            Ok(m) => nameid_spec(crate::cfbio::container_streams(*old(comp))) == Ok::<
                (Seq<u8>, Seq<u8>, Seq<u8>),
                Error,
            >((m.guid_stream.buffer@, m.string_stream.buffer@, m.entry_stream.buffer@)),
            Err(e) => nameid_spec(crate::cfbio::container_streams(*old(comp))) == Err::<
                (Seq<u8>, Seq<u8>, Seq<u8>),
                Error,
            >(e),
        },
{
    let gp = crate::paths::make_sub_stream_path("__nameid_version1.0", "__substg1.0_00020102");
    let guid_buffer = match crate::cfbio::stream_bytes(comp, gp.as_str()) {
        Some(b) => b,
        None => {
            return Err(Error::MissingStorage);
        },
    };
    let sp = crate::paths::make_sub_stream_path("__nameid_version1.0", "__substg1.0_00040102");
    let string_buffer = match crate::cfbio::stream_bytes(comp, sp.as_str()) {
        Some(b) => b,
        None => {
            return Err(Error::MissingStorage);
        },
    };
    let ep = crate::paths::make_sub_stream_path("__nameid_version1.0", "__substg1.0_00030102");
    let entry_buffer = match crate::cfbio::stream_bytes(comp, ep.as_str()) {
        Some(b) => b,
        None => {
            return Err(Error::MissingStorage);
        },
    };
    Ok(
        NamedPropertyMapping {
            string_stream: StringStream::new(string_buffer),
            guid_stream: GuidStream::new(guid_buffer),
            entry_stream: EntryStream::new(entry_buffer),
        },
    )
}

/// How a named property is identified in a bucket record: a numeric LID,
/// or the stored name-checksum payload, both as the little-endian value of
/// the record's first four bytes.
#[derive(Copy, Clone, Debug, PartialEq, Eq, Hash, Structural)]
pub enum PropertyMappingIdentifier {
    Number(u32),
    String(u32),
}

/// One named-property assignment: its property set, its identifier, and
/// the runtime property id of its slot.
#[derive(Copy, Clone, Debug, PartialEq, Eq, Hash, Structural)]
pub struct PropertyMapping {
    pub property_set: PropertySet,
    pub property_name: PropertyMappingIdentifier,
    pub property_id: u16,
}

/// What an eight-byte bucket record decodes to: the assignment and the
/// bucket stream id its identifier hashes to.
pub open spec fn mapping_record_of(gs: Seq<u8>, b: Seq<u8>) -> Result<
    (PropertyMapping, u16),
    Error,
>
    recommends
        b.len() >= 8,
{
    match kind_index_of(b.skip(4)) {
        Err(e) => Err(e),
        Ok(t) => match property_set_of_index(gs, t.1) {
            Err(e) => Err(e),
            Ok(set) => if t.0 >= 0x8000 {
                Err(Error::SlotOutOfRange)
            } else {
                let ident = match t.2 {
                    PropertyKind::Numerical => PropertyMappingIdentifier::Number(le32(b)),
                    PropertyKind::String => PropertyMappingIdentifier::String(le32(b)),
                };
                let sid = match t.2 {
                    PropertyKind::Numerical => stream_id_of(
                        le32(b) & 0xFFFF,
                        guid_index_num(t.1),
                        0,
                    ),
                    PropertyKind::String => stream_id_of(
                        crate::digest::crc32_of(b.take(4)),
                        guid_index_num(t.1),
                        1,
                    ),
                };
                Ok(
                    (
                        PropertyMapping {
                            property_set: set,
                            property_name: ident,
                            property_id: (0x8000 + t.0) as u16,
                        },
                        sid,
                    ),
                )
            },
        },
    }
}

/// Decodes one eight-byte bucket record.
pub fn parse_mapping_record(guid_stream: &GuidStream, data_slice: [u8; 8]) -> (r: Result<
    (PropertyMapping, u16),
    Error,
>)
    ensures
        match r {
            Ok(p) => mapping_record_of(guid_stream.buffer@, data_slice@) == Ok::<
                (PropertyMapping, u16),
                Error,
            >(p),
            Err(e) => mapping_record_of(guid_stream.buffer@, data_slice@) == Err::<
                (PropertyMapping, u16),
                Error,
            >(e),
        },
{
    let tail: [u8; 4] = [data_slice[4], data_slice[5], data_slice[6], data_slice[7]];
    proof {
        assert(tail@ =~= data_slice@.skip(4));
    }
    let (property_index, guid_index, property_kind) = match parse_kind_index(tail) {
        Ok(t) => t,
        Err(e) => {
            return Err(e);
        },
    };
    let property_set = match guid_index {
        GuidIndex::PsMapi => PropertySet::PsMapi,
        GuidIndex::PublicStrings => PropertySet::PublicStrings,
        GuidIndex::StreamIndex(i) => match guid_stream.get(i as usize) {
            Ok(g) => PropertySet::from_uuid(g),
            Err(e) => {
                return Err(e);
            },
        },
    };
    if property_index >= 0x8000 {
        return Err(Error::SlotOutOfRange);
    }
    let num = data_slice[0] as u32 + (data_slice[1] as u32) * 0x100 + (data_slice[2] as u32)
        * 0x10000 + (data_slice[3] as u32) * 0x1000000;
    proof {
        assert(num == le32(data_slice@));
    }
    let (property_name, stream_id) = match property_kind {
        PropertyKind::Numerical => (
            PropertyMappingIdentifier::Number(num),
            derive_stream_id(num & 0xFFFF, guid_index.as_num(), 0),
        ),
        PropertyKind::String => {
            let mut id_bytes: Vec<u8> = Vec::new();
            id_bytes.push(data_slice[0]);
            id_bytes.push(data_slice[1]);
            id_bytes.push(data_slice[2]);
            id_bytes.push(data_slice[3]);
            proof {
                assert(id_bytes@ =~= data_slice@.take(4));
            }
            let checksum = crate::digest::crc32(id_bytes.as_slice());
            (
                PropertyMappingIdentifier::String(num),
                derive_stream_id(checksum, guid_index.as_num(), 1),
            )
        },
    };
    Ok(
        (
            PropertyMapping { property_set, property_name, property_id: 0x8000 + property_index },
            stream_id,
        ),
    )
}

/// What one bucket stream yields: its assignments in order, and one
/// checksum warning per record whose derived bucket differs from the one
/// it was read from.  A bad record ends the bucket; trailing bytes are
/// ignored.
pub open spec fn bucket_scan(gs: Seq<u8>, b: Seq<u8>, sid: u16) -> (
    Seq<PropertyMapping>,
    Seq<crate::WarningView>,
)
    decreases b.len(),
{
    if b.len() < 8 {
        (Seq::<PropertyMapping>::empty(), Seq::<crate::WarningView>::empty())
    } else {
        match mapping_record_of(gs, b.take(8)) {
            Err(_) => (Seq::<PropertyMapping>::empty(), Seq::<crate::WarningView>::empty()),
            Ok(p) => {
                let rest = bucket_scan(gs, b.skip(8), sid);
                if p.1 != sid {
                    (
                        seq![p.0] + rest.0,
                        seq![crate::WarningView::MappingChecksum(stream_name_of(sid))] + rest.1,
                    )
                } else {
                    (seq![p.0] + rest.0, rest.1)
                }
            },
        }
    }
}

/// Scans one bucket stream.
#[verifier::rlimit(100)]
pub fn parse_bucket(guid_stream: &GuidStream, data: &[u8], sid: u16, bucket_name: &str) -> (r: (
    Vec<PropertyMapping>,
    Vec<crate::Warning>,
))
    requires
        bucket_name@ == stream_name_of(sid),
    ensures
        r.0@ == bucket_scan(guid_stream.buffer@, data@, sid).0,
        r.1@.map_values(|w: crate::Warning| w@) == bucket_scan(guid_stream.buffer@, data@, sid).1,
{
    let ghost gs = guid_stream.buffer@;
    let mut mappings: Vec<PropertyMapping> = Vec::new();
    let mut warnings: Vec<crate::Warning> = Vec::new();
    let mut pos: usize = 0;
    let len = data.len();
    proof {
        assert(data@.skip(0) =~= data@);
        assert(mappings@ + bucket_scan(gs, data@, sid).0 =~= bucket_scan(gs, data@, sid).0);
        assert(warnings@.map_values(|w: crate::Warning| w@) + bucket_scan(gs, data@, sid).1
            =~= bucket_scan(gs, data@, sid).1);
    }
    while pos < len && len - pos >= 8
        invariant
            pos <= len,
            len == data@.len(),
            gs == guid_stream.buffer@,
            bucket_name@ == stream_name_of(sid),
            bucket_scan(gs, data@, sid).0 == mappings@ + bucket_scan(
                gs,
                data@.skip(pos as int),
                sid,
            ).0,
            bucket_scan(gs, data@, sid).1 == warnings@.map_values(|w: crate::Warning| w@)
                + bucket_scan(gs, data@.skip(pos as int), sid).1,
        decreases len - pos,
    {
        let ghost tail = data@.skip(pos as int);
        let ghost prior_m = mappings@;
        let ghost prior_w = warnings@;
        let chunk: [u8; 8] = [
            data[pos],
            data[pos + 1],
            data[pos + 2],
            data[pos + 3],
            data[pos + 4],
            data[pos + 5],
            data[pos + 6],
            data[pos + 7],
        ];
        proof {
            assert(chunk@ =~= tail.take(8));
        }
        let (mapping, rsid) = match parse_mapping_record(guid_stream, chunk) {
            Ok(p) => p,
            Err(_e) => {
                proof {
                    assert(bucket_scan(gs, tail, sid).0 =~= Seq::<PropertyMapping>::empty());
                    assert(bucket_scan(gs, tail, sid).1 =~= Seq::<crate::WarningView>::empty());
                    assert(mappings@ + bucket_scan(gs, tail, sid).0 =~= mappings@);
                    assert(warnings@.map_values(|w: crate::Warning| w@) + bucket_scan(
                        gs,
                        tail,
                        sid,
                    ).1 =~= warnings@.map_values(|w: crate::Warning| w@));
                }
                return (mappings, warnings);
            },
        };
        mappings.push(mapping);
        if rsid != sid {
            warnings.push(crate::Warning::MappingChecksum(String::from_str(bucket_name)));
        }
        proof {
            assert(tail.skip(8) =~= data@.skip(pos + 8));
            assert(mappings@ + bucket_scan(gs, data@.skip(pos + 8), sid).0 =~= prior_m + (
            seq![mapping] + bucket_scan(gs, data@.skip(pos + 8), sid).0));
            if rsid != sid {
                assert(warnings@.map_values(|w: crate::Warning| w@) + bucket_scan(
                    gs,
                    data@.skip(pos + 8),
                    sid,
                ).1 =~= prior_w.map_values(|w: crate::Warning| w@) + (
                seq![crate::WarningView::MappingChecksum(stream_name_of(sid))] + bucket_scan(
                    gs,
                    data@.skip(pos + 8),
                    sid,
                ).1));
            }
        }
        pos = pos + 8;
    }
    proof {
        assert(bucket_scan(gs, data@.skip(pos as int), sid).0 =~= Seq::<
            PropertyMapping,
        >::empty());
        assert(bucket_scan(gs, data@.skip(pos as int), sid).1 =~= Seq::<
            crate::WarningView,
        >::empty());
        assert(mappings@ + bucket_scan(gs, data@.skip(pos as int), sid).0 =~= mappings@);
        assert(warnings@.map_values(|w: crate::Warning| w@) + bucket_scan(
            gs,
            data@.skip(pos as int),
            sid,
        ).1 =~= warnings@.map_values(|w: crate::Warning| w@));
    }
    (mappings, warnings)
}

/// What all thirty-one possible bucket streams of the name-id storage
/// yield, visited in increasing stream-id order; absent buckets are
/// skipped.
pub open spec fn mappings_spec(s: Map<Seq<char>, Seq<u8>>, gs: Seq<u8>, sid: int) -> (
    Seq<PropertyMapping>,
    Seq<crate::WarningView>,
)
    decreases 0x101F - sid,
{
    if sid < 0x1000 || sid >= 0x101F {
        (Seq::<PropertyMapping>::empty(), Seq::<crate::WarningView>::empty())
    } else {
        let path = crate::paths::sub_stream_path(
            "__nameid_version1.0"@,
            stream_name_of(sid as u16),
        );
        let rest = mappings_spec(s, gs, sid + 1);
        if s.dom().contains(path) {
            let cur = bucket_scan(gs, s[path], sid as u16);
            (cur.0 + rest.0, cur.1 + rest.1)
        } else {
            rest
        }
    }
}

/// Walks every bucket stream of the name-id storage and collects the
/// named-property assignments, with a checksum warning for each record
/// that hashes to a different bucket than the one holding it.
pub fn parse_property_mappings(
    named_property_mapping: &NamedPropertyMapping,
    comp: &mut crate::cfbio::MsgContainer,
) -> (r: (Vec<PropertyMapping>, Vec<crate::Warning>))
    ensures
        crate::cfbio::container_streams(*final(comp)) == crate::cfbio::container_streams(
            *old(comp),
        ),
        crate::cfbio::container_entries(*final(comp)) == crate::cfbio::container_entries(
            *old(comp),
        ),
        r.0@ == mappings_spec(
            crate::cfbio::container_streams(*old(comp)),
            named_property_mapping.guid_stream.buffer@,
            0x1000,
        ).0,
        r.1@.map_values(|w: crate::Warning| w@) == mappings_spec(
            crate::cfbio::container_streams(*old(comp)),
            named_property_mapping.guid_stream.buffer@,
            0x1000,
        ).1,
{
    let ghost s0 = crate::cfbio::container_streams(*comp);
    let ghost gs = named_property_mapping.guid_stream.buffer@;
    let mut mappings: Vec<PropertyMapping> = Vec::new();
    let mut warnings: Vec<crate::Warning> = Vec::new();
    let mut sid: u16 = 0x1000;
    proof {
        assert(mappings@ + mappings_spec(s0, gs, 0x1000).0 =~= mappings_spec(s0, gs, 0x1000).0);
        assert(warnings@.map_values(|w: crate::Warning| w@) + mappings_spec(s0, gs, 0x1000).1
            =~= mappings_spec(s0, gs, 0x1000).1);
    }
    while sid < 0x101F
        invariant
            0x1000 <= sid <= 0x101F,
            s0 == crate::cfbio::container_streams(*old(comp)),
            crate::cfbio::container_streams(*comp) == s0,
            crate::cfbio::container_entries(*comp) == crate::cfbio::container_entries(*old(comp)),
            gs == named_property_mapping.guid_stream.buffer@,
            mappings_spec(s0, gs, 0x1000).0 == mappings@ + mappings_spec(s0, gs, sid as int).0,
            mappings_spec(s0, gs, 0x1000).1 == warnings@.map_values(|w: crate::Warning| w@)
                + mappings_spec(s0, gs, sid as int).1,
        decreases 0x101F - sid,
    {
        let ghost prior_m = mappings@;
        let ghost prior_w = warnings@;
        let bucket_name = derive_stream_name(sid);
        let path = crate::paths::make_sub_stream_path("__nameid_version1.0", bucket_name.as_str());
        match crate::cfbio::stream_bytes(comp, path.as_str()) {
            Some(bytes) => {
                let (mut ms, mut ws) = parse_bucket(
                    &named_property_mapping.guid_stream,
                    bytes.as_slice(),
                    sid,
                    bucket_name.as_str(),
                );
                let ghost cur_m = ms@;
                let ghost cur_w = ws@;
                mappings.append(&mut ms);
                warnings.append(&mut ws);
                proof {
                    assert(mappings@ + mappings_spec(s0, gs, sid + 1).0 =~= prior_m + (cur_m
                        + mappings_spec(s0, gs, sid + 1).0));
                    assert(warnings@.map_values(|w: crate::Warning| w@) =~= prior_w.map_values(
                        |w: crate::Warning| w@,
                    ) + cur_w.map_values(|w: crate::Warning| w@));
                    assert(warnings@.map_values(|w: crate::Warning| w@) + mappings_spec(
                        s0,
                        gs,
                        sid + 1,
                    ).1 =~= prior_w.map_values(|w: crate::Warning| w@) + (cur_w.map_values(
                        |w: crate::Warning| w@,
                    ) + mappings_spec(s0, gs, sid + 1).1));
                }
            },
            None => {},
        }
        sid = sid + 1;
    }
    proof {
        assert(mappings_spec(s0, gs, 0x101F).0 =~= Seq::<PropertyMapping>::empty());
        assert(mappings_spec(s0, gs, 0x101F).1 =~= Seq::<crate::WarningView>::empty());
        assert(mappings@ + mappings_spec(s0, gs, 0x101F).0 =~= mappings@);
        assert(warnings@.map_values(|w: crate::Warning| w@) + mappings_spec(s0, gs, 0x101F).1
            =~= warnings@.map_values(|w: crate::Warning| w@));
    }
    (mappings, warnings)
}

} // verus!
