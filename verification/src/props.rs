//! The `__properties_version1.0` stream: its two header variants and the
//! fixed-length sixteen-byte property entries that follow.

use vstd::prelude::*;
use crate::Error;
use crate::bytes::{as_signed16, as_signed32, as_signed64, le16, le32, le64};
use crate::property_ids::{Pid, pid_of_code};
use crate::ptype::{PType, ptype_of_code};
use crate::time::{UtcTime, filetime_nanos, filetime_seconds, filetime_to_utc};

verus! {

/// The property may not be deleted or changed.
pub const PROPATTR_MANDATORY: u32 = 0x00000001;

/// The property value may be read.
pub const PROPATTR_READABLE: u32 = 0x00000002;

/// The property value may be modified.
pub const PROPATTR_WRITABLE: u32 = 0x00000004;

/// The 32-bit flag field of a property entry.  The three low bits are
/// defined; the rest are retained as read.
#[derive(Copy, Clone, Debug, PartialEq, Eq, Hash, Structural)]
pub struct Flags {
    pub bits: u32,
}

impl Flags {
    /// Accepts only the three defined attribute bits.
    pub fn from_bits(bits: u32) -> (r: Option<Flags>)
        ensures
            bits < 8 ==> r == Some(Flags { bits }),
            bits >= 8 ==> r is None,
    {
        if bits < 8 {
            Some(Flags { bits })
        } else {
            None
        }
    }

    /// Retains every bit as read from the stream.
    pub fn raw(bits: u32) -> (r: Flags)
        ensures
            r == (Flags { bits }),
    {
        Flags { bits }
    }

    pub fn is_mandatory(&self) -> (r: bool)
        ensures
            r == ((self.bits & PROPATTR_MANDATORY) != 0),
    {
        (self.bits & PROPATTR_MANDATORY) != 0
    }

    pub fn is_readable(&self) -> (r: bool)
        ensures
            r == ((self.bits & PROPATTR_READABLE) != 0),
    {
        (self.bits & PROPATTR_READABLE) != 0
    }

    pub fn is_writable(&self) -> (r: bool)
        ensures
            r == ((self.bits & PROPATTR_WRITABLE) != 0),
    {
        (self.bits & PROPATTR_WRITABLE) != 0
    }
}

/// A decoded fixed-length property value.  Fixed-width types carry their
/// value inline; variable-length and multi-valued types carry the 32-bit
/// size or count hint from the entry, with the payload in a sub-stream.
/// Floating-point values are retained as their IEEE 754 bit patterns.
#[derive(Copy, Clone, Debug, PartialEq, Eq, Hash, Structural)]
pub enum PValue {
    Integer16(i16),
    Integer32(i32),
    /// The bits of a 32-bit IEEE 754 value.
    Floating32(u32),
    /// The bits of a 64-bit IEEE 754 value.
    Floating64(u64),
    Currency(i64),
    /// The bits of a 64-bit IEEE 754 OLE date.
    FloatingTime(u64),
    ErrorCode,
    Boolean(bool),
    Integer64(i64),
    String(u32),
    String8(u32),
    Time(UtcTime),
    Guid(u32),
    ServerId(u32),
    Restriction(u32),
    RuleAction(u32),
    Binary(u32),
    MultipleInteger16(u32),
    MultipleInteger32(u32),
    MultipleFloating32(u32),
    MultipleFloating64(u32),
    MultipleCurrency(u32),
    MultipleFloatingTime(u32),
    MultipleInteger64(u32),
    MultipleString(u32),
    MultipleString8(u32),
    MultipleTime(u32),
    MultipleGuid(u32),
    MultipleBinary(u32),
    Unspecified(u32),
    Null,
    Object,
}

/// The UTC instant stored as a little-endian FILETIME in the first eight
/// bytes of `b`.
pub open spec fn time_of(b: Seq<u8>) -> UtcTime
    recommends
        b.len() >= 8,
{
    UtcTime {
        seconds: filetime_seconds(as_signed64(le64(b)) as int) as i64,
        nanoseconds: filetime_nanos(as_signed64(le64(b)) as int) as u32,
    }
}

/// The value the eight value bytes of a fixed-length entry decode to under
/// a property type.
pub open spec fn pvalue_of(t: PType, b: Seq<u8>) -> PValue
    recommends
        b.len() >= 8,
{
    match t {
        PType::Integer16 => PValue::Integer16(as_signed16(le16(b))),
        PType::Integer32 => PValue::Integer32(as_signed32(le32(b))),
        PType::Floating32 => PValue::Floating32(le32(b)),
        PType::Floating64 => PValue::Floating64(le64(b)),
        PType::Currency => PValue::Currency(as_signed64(le64(b))),
        PType::FloatingTime => PValue::FloatingTime(le64(b)),
        PType::ErrorCode => PValue::ErrorCode,
        PType::Boolean => PValue::Boolean(b[0] == 1),
        PType::Integer64 => PValue::Integer64(as_signed64(le64(b))),
        PType::String => PValue::String(le32(b)),
        PType::String8 => PValue::String8(le32(b)),
        PType::Time => PValue::Time(time_of(b)),
        PType::Guid => PValue::Guid(le32(b)),
        PType::ServerId => PValue::ServerId(le32(b)),
        PType::Restriction => PValue::Restriction(le32(b)),
        PType::RuleAction => PValue::RuleAction(le32(b)),
        PType::Binary => PValue::Binary(le32(b)),
        PType::MultipleInteger16 => PValue::MultipleInteger16(le32(b)),
        PType::MultipleInteger32 => PValue::MultipleInteger32(le32(b)),
        PType::MultipleFloating32 => PValue::MultipleFloating32(le32(b)),
        PType::MultipleFloating64 => PValue::MultipleFloating64(le32(b)),
        PType::MultipleCurrency => PValue::MultipleCurrency(le32(b)),
        PType::MultipleFloatingTime => PValue::MultipleFloatingTime(le32(b)),
        PType::MultipleInteger64 => PValue::MultipleInteger64(le32(b)),
        PType::MultipleString => PValue::MultipleString(le32(b)),
        PType::MultipleString8 => PValue::MultipleString8(le32(b)),
        PType::MultipleTime => PValue::MultipleTime(le32(b)),
        PType::MultipleGuid => PValue::MultipleGuid(le32(b)),
        PType::MultipleBinary => PValue::MultipleBinary(le32(b)),
        PType::Unspecified => PValue::Unspecified(le32(b)),
        PType::Null => PValue::Null,
        PType::Object => PValue::Object,
    }
}

impl PValue {
    /// Decodes the eight value bytes of a fixed-length entry under a
    /// property type.
    pub fn from_bytes(property_type: PType, data: [u8; 8]) -> (r: PValue)
        ensures
            r == pvalue_of(property_type, data@),
    {
        let u16v = data[0] as u16 + (data[1] as u16) * 0x100;
        let u32v = data[0] as u32 + (data[1] as u32) * 0x100 + (data[2] as u32) * 0x10000 + (
        data[3] as u32) * 0x1000000;
        let lo = data[0] as u64 + (data[1] as u64) * 0x100 + (data[2] as u64) * 0x10000 + (
        data[3] as u64) * 0x1000000;
        let hi = data[4] as u64 + (data[5] as u64) * 0x100 + (data[6] as u64) * 0x10000 + (
        data[7] as u64) * 0x1000000;
        let u64v = lo + hi * 0x100000000;
        proof {
            assert(data@.skip(4)[0] == data@[4]);
            assert(data@.skip(4)[1] == data@[5]);
            assert(data@.skip(4)[2] == data@[6]);
            assert(data@.skip(4)[3] == data@[7]);
            assert(u16v == le16(data@));
            assert(u32v == le32(data@));
            assert(u64v == le64(data@));
        }
        let i16v = if u16v < 0x8000 {
            u16v as i16
        } else {
            -((u16::MAX - u16v) as i16) - 1
        };
        let i32v = if u32v < 0x8000_0000 {
            u32v as i32
        } else {
            -((u32::MAX - u32v) as i32) - 1
        };
        let i64v = if u64v < 0x8000_0000_0000_0000 {
            u64v as i64
        } else {
            -((u64::MAX - u64v) as i64) - 1
        };
        match property_type {
            PType::Integer16 => PValue::Integer16(i16v),
            PType::Integer32 => PValue::Integer32(i32v),
            PType::Floating32 => PValue::Floating32(u32v),
            PType::Floating64 => PValue::Floating64(u64v),
            PType::Currency => PValue::Currency(i64v),
            PType::FloatingTime => PValue::FloatingTime(u64v),
            PType::ErrorCode => PValue::ErrorCode,
            PType::Boolean => PValue::Boolean(data[0] == 1),
            PType::Integer64 => PValue::Integer64(i64v),
            PType::String => PValue::String(u32v),
            PType::String8 => PValue::String8(u32v),
            PType::Time => PValue::Time(filetime_to_utc(i64v)),
            PType::Guid => PValue::Guid(u32v),
            PType::ServerId => PValue::ServerId(u32v),
            PType::Restriction => PValue::Restriction(u32v),
            PType::RuleAction => PValue::RuleAction(u32v),
            PType::Binary => PValue::Binary(u32v),
            PType::MultipleInteger16 => PValue::MultipleInteger16(u32v),
            PType::MultipleInteger32 => PValue::MultipleInteger32(u32v),
            PType::MultipleFloating32 => PValue::MultipleFloating32(u32v),
            PType::MultipleFloating64 => PValue::MultipleFloating64(u32v),
            PType::MultipleCurrency => PValue::MultipleCurrency(u32v),
            PType::MultipleFloatingTime => PValue::MultipleFloatingTime(u32v),
            PType::MultipleInteger64 => PValue::MultipleInteger64(u32v),
            PType::MultipleString => PValue::MultipleString(u32v),
            PType::MultipleString8 => PValue::MultipleString8(u32v),
            PType::MultipleTime => PValue::MultipleTime(u32v),
            PType::MultipleGuid => PValue::MultipleGuid(u32v),
            PType::MultipleBinary => PValue::MultipleBinary(u32v),
            PType::Unspecified => PValue::Unspecified(u32v),
            PType::Null => PValue::Null,
            PType::Object => PValue::Object,
        }
    }
}

/// One sixteen-byte fixed-length entry of a property stream.
#[derive(Copy, Clone, Debug, PartialEq, Eq, Hash, Structural)]
pub struct FixedLengthPropertyEntry {
    pub property_id: Pid,
    pub flags: Flags,
    pub value: PValue,
}

/// The entry the sixteen bytes at the head of `b` decode to.
pub open spec fn fixed_entry_of(b: Seq<u8>) -> FixedLengthPropertyEntry
    recommends
        b.len() >= 16,
{
    FixedLengthPropertyEntry {
        property_id: pid_of_code(le16(b.skip(2))),
        flags: Flags { bits: le32(b.skip(4)) },
        value: pvalue_of(ptype_of_code(le16(b)), b.skip(8)),
    }
}

/// Decodes one sixteen-byte fixed-length property entry.
pub fn parse_fixed_length_property_entry(data_slice: [u8; 16]) -> (r: FixedLengthPropertyEntry)
    ensures
        r == fixed_entry_of(data_slice@),
{
    let ptype_bits = data_slice[0] as u16 + (data_slice[1] as u16) * 0x100;
    let pid_bits = data_slice[2] as u16 + (data_slice[3] as u16) * 0x100;
    let flag_bits = data_slice[4] as u32 + (data_slice[5] as u32) * 0x100 + (data_slice[6] as u32)
        * 0x10000 + (data_slice[7] as u32) * 0x1000000;
    let value_bytes: [u8; 8] = [
        data_slice[8],
        data_slice[9],
        data_slice[10],
        data_slice[11],
        data_slice[12],
        data_slice[13],
        data_slice[14],
        data_slice[15],
    ];
    proof {
        assert(data_slice@.skip(2)[0] == data_slice@[2]);
        assert(data_slice@.skip(2)[1] == data_slice@[3]);
        assert(data_slice@.skip(4)[0] == data_slice@[4]);
        assert(data_slice@.skip(4)[1] == data_slice@[5]);
        assert(data_slice@.skip(4)[2] == data_slice@[6]);
        assert(data_slice@.skip(4)[3] == data_slice@[7]);
        assert(ptype_bits == le16(data_slice@));
        assert(pid_bits == le16(data_slice@.skip(2)));
        assert(flag_bits == le32(data_slice@.skip(4)));
        assert(value_bytes@ =~= data_slice@.skip(8));
    }
    let property_type = PType::from_bits(ptype_bits);
    let property_id = Pid::from_u16(pid_bits);
    let value = PValue::from_bytes(property_type, value_bytes);
    FixedLengthPropertyEntry { property_id, flags: Flags { bits: flag_bits }, value }
}

/// The fixed-length entries of the byte string `b`, read as consecutive
/// sixteen-byte records.
pub open spec fn entries_of(b: Seq<u8>) -> Seq<FixedLengthPropertyEntry> {
    Seq::new(b.len() / 16, |i: int| fixed_entry_of(b.skip(16 * i)))
}

/// The parsed top-level property stream: the header counts and the entry
/// array.
#[derive(Clone, Debug)]
pub struct TopProperties {
    pub next_recipient_id: u32,
    pub next_attachment_id: u32,
    pub recipient_count: u32,
    pub attachment_count: u32,
    pub properties: Vec<FixedLengthPropertyEntry>,
}

/// The mathematical content of a [`TopProperties`].
pub struct TopPropertiesView {
    pub next_recipient_id: u32,
    pub next_attachment_id: u32,
    pub recipient_count: u32,
    pub attachment_count: u32,
    pub properties: Seq<FixedLengthPropertyEntry>,
}

impl View for TopProperties {
    type V = TopPropertiesView;

    open spec fn view(&self) -> TopPropertiesView {
        TopPropertiesView {
            next_recipient_id: self.next_recipient_id,
            next_attachment_id: self.next_attachment_id,
            recipient_count: self.recipient_count,
            attachment_count: self.attachment_count,
            properties: self.properties@,
        }
    }
}

/// The parsed property stream of a recipient or attachment storage.
#[derive(Clone, Debug)]
pub struct Properties {
    pub properties: Vec<FixedLengthPropertyEntry>,
}

/// The mathematical content of a [`Properties`].
pub struct PropertiesView {
    pub properties: Seq<FixedLengthPropertyEntry>,
}

impl View for Properties {
    type V = PropertiesView;

    open spec fn view(&self) -> PropertiesView {
        PropertiesView { properties: self.properties@ }
    }
}

/// What a top-level property stream parses to: a 32-byte header with the
/// recipient and attachment counts, then sixteen-byte entries.
pub open spec fn top_props_of(b: Seq<u8>) -> Result<TopPropertiesView, Error> {
    if b.len() < 32 || (b.len() - 32) % 16 != 0 {
        Err(Error::ShortInput)
    } else {
        Ok(
            TopPropertiesView {
                next_recipient_id: le32(b.skip(8)),
                next_attachment_id: le32(b.skip(12)),
                recipient_count: le32(b.skip(16)),
                attachment_count: le32(b.skip(20)),
                properties: entries_of(b.skip(32)),
            },
        )
    }
}

/// What a recipient or attachment property stream parses to: an 8-byte
/// reserved header, then sixteen-byte entries.
pub open spec fn sub_props_of(b: Seq<u8>) -> Result<PropertiesView, Error> {
    if b.len() < 8 || (b.len() - 8) % 16 != 0 {
        Err(Error::ShortInput)
    } else {
        Ok(PropertiesView { properties: entries_of(b.skip(8)) })
    }
}

/// Parses the fixed-length entries that start at `offset`.
fn parse_entry_array(data: &[u8], offset: usize) -> (r: Vec<FixedLengthPropertyEntry>)
    requires
        offset <= data@.len(),
        (data@.len() - offset) % 16 == 0,
    ensures
        r@ == entries_of(data@.skip(offset as int)),
{
    let ghost tail = data@.skip(offset as int);
    let mut props: Vec<FixedLengthPropertyEntry> = Vec::new();
    let n = (data.len() - offset) / 16;
    proof {
        vstd::arithmetic::div_mod::lemma_fundamental_div_mod(tail.len() as int, 16);
    }
    let mut i: usize = 0;
    while i < n
        invariant
            i <= n,
            tail == data@.skip(offset as int),
            offset + 16 * n == data@.len(),
            data@.len() <= usize::MAX,
            n == tail.len() / 16,
            props@.len() == i,
            forall|j: int| 0 <= j < i ==> props@[j] == entries_of(tail)[j],
        decreases n - i,
    {
        let base = offset + 16 * i;
        let chunk: [u8; 16] = [
            data[base],
            data[base + 1],
            data[base + 2],
            data[base + 3],
            data[base + 4],
            data[base + 5],
            data[base + 6],
            data[base + 7],
            data[base + 8],
            data[base + 9],
            data[base + 10],
            data[base + 11],
            data[base + 12],
            data[base + 13],
            data[base + 14],
            data[base + 15],
        ];
        proof {
            assert forall|k: int| 0 <= k < 16 implies #[trigger] tail.skip(16 * (i as int))[k]
                == data@[base + k] by {
                assert(tail.skip(16 * (i as int))[k] == tail[16 * (i as int) + k]);
            }
            assert(chunk@ =~= tail.skip(16 * (i as int)).take(16));
            assert(fixed_entry_of(chunk@) == fixed_entry_of(tail.skip(16 * (i as int)))) by {
                lemma_fixed_entry_prefix(tail.skip(16 * (i as int)), chunk@);
            }
        }
        let entry = parse_fixed_length_property_entry(chunk);
        props.push(entry);
        i = i + 1;
    }
    proof {
        assert(props@ =~= entries_of(tail));
    }
    props
}

/// A fixed-length entry depends only on the first sixteen bytes.
proof fn lemma_fixed_entry_prefix(b: Seq<u8>, p: Seq<u8>)
    requires
        b.len() >= 16,
        p == b.take(16),
    ensures
        fixed_entry_of(p) == fixed_entry_of(b),
{
    assert(p.len() == 16);
    assert(forall|k: int| 0 <= k < 16 ==> p[k] == b[k]);
    assert(le16(p) == le16(b));
    assert(p.skip(2)[0] == b.skip(2)[0] && p.skip(2)[1] == b.skip(2)[1]);
    assert(le16(p.skip(2)) == le16(b.skip(2)));
    assert(forall|k: int| 0 <= k < 4 ==> p.skip(4)[k] == b.skip(4)[k]);
    assert(le32(p.skip(4)) == le32(b.skip(4)));
    assert(forall|k: int| 0 <= k < 8 ==> p.skip(8)[k] == b.skip(8)[k]);
    lemma_pvalue_first_eight(ptype_of_code(le16(p)), p.skip(8), b.skip(8));
}

/// A property value depends only on the first eight value bytes.
proof fn lemma_pvalue_first_eight(t: PType, x: Seq<u8>, y: Seq<u8>)
    requires
        x.len() >= 8,
        y.len() >= 8,
        forall|k: int| 0 <= k < 8 ==> x[k] == y[k],
    ensures
        pvalue_of(t, x) == pvalue_of(t, y),
{
    assert(le16(x) == le16(y));
    assert(le32(x) == le32(y));
    assert(forall|k: int| 0 <= k < 4 ==> x.skip(4)[k] == y.skip(4)[k]);
    assert(le32(x.skip(4)) == le32(y.skip(4)));
    assert(le64(x) == le64(y));
}

/// Parses the top-level property stream of the message storage.
pub fn parse_property_stream_header_top_level(data_slice: &[u8]) -> (r: Result<
    TopProperties,
    Error,
>)
    ensures
        match r {
            Ok(p) => top_props_of(data_slice@) == Ok::<TopPropertiesView, Error>(p@),
            Err(e) => top_props_of(data_slice@) == Err::<TopPropertiesView, Error>(e),
        },
{
    if data_slice.len() < 32 || (data_slice.len() - 32) % 16 != 0 {
        return Err(Error::ShortInput);
    }
    let next_recipient_id = match crate::bytes::read_u32_le(
        vstd::slice::slice_subrange(data_slice, 8, 12),
    ) {
        Ok(v) => v,
        Err(e) => {
            proof {
                assert(false);
            }
            return Err(e);
        },
    };
    let next_attachment_id = match crate::bytes::read_u32_le(
        vstd::slice::slice_subrange(data_slice, 12, 16),
    ) {
        Ok(v) => v,
        Err(e) => {
            proof {
                assert(false);
            }
            return Err(e);
        },
    };
    let recipient_count = match crate::bytes::read_u32_le(
        vstd::slice::slice_subrange(data_slice, 16, 20),
    ) {
        Ok(v) => v,
        Err(e) => {
            proof {
                assert(false);
            }
            return Err(e);
        },
    };
    let attachment_count = match crate::bytes::read_u32_le(
        vstd::slice::slice_subrange(data_slice, 20, 24),
    ) {
        Ok(v) => v,
        Err(e) => {
            proof {
                assert(false);
            }
            return Err(e);
        },
    };
    proof {
        lemma_le32_subrange(data_slice@, 8);
        lemma_le32_subrange(data_slice@, 12);
        lemma_le32_subrange(data_slice@, 16);
        lemma_le32_subrange(data_slice@, 20);
    }
    let properties = parse_entry_array(data_slice, 32);
    Ok(
        TopProperties {
            next_recipient_id,
            next_attachment_id,
            recipient_count,
            attachment_count,
            properties,
        },
    )
}

/// Reading four bytes through a subrange equals reading them in place.
proof fn lemma_le32_subrange(b: Seq<u8>, off: int)
    requires
        0 <= off,
        off + 4 <= b.len(),
    ensures
        le32(b.subrange(off, off + 4)) == le32(b.skip(off)),
{
    assert(forall|k: int| 0 <= k < 4 ==> b.subrange(off, off + 4)[k] == b.skip(off)[k]);
}

/// The raw bytes of a property stream, kept for later decoding.
pub struct PropertyStream {
    pub buffer: Vec<u8>,
}

impl PropertyStream {
    pub fn new(buffer: Vec<u8>) -> (r: Self)
        ensures
            r.buffer == buffer,
    {
        Self { buffer }
    }
}

/// Parses the property stream of a recipient or attachment storage.
pub fn parse_property_stream_header_other(data_slice: &[u8]) -> (r: Result<Properties, Error>)
    ensures
        match r {
            Ok(p) => sub_props_of(data_slice@) == Ok::<PropertiesView, Error>(p@),
            Err(e) => sub_props_of(data_slice@) == Err::<PropertiesView, Error>(e),
        },
{
    if data_slice.len() < 8 || (data_slice.len() - 8) % 16 != 0 {
        return Err(Error::ShortInput);
    }
    let properties = parse_entry_array(data_slice, 8);
    Ok(Properties { properties })
}

/// Opens and parses the top-level property stream of the storage whose
/// path prefix, separator included, is `storage_path`.
pub fn parse_property_stream_top_level(
    comp: &mut crate::cfbio::MsgContainer,
    storage_path: &str,
) -> (r: Result<TopProperties, Error>)
    ensures
        crate::cfbio::container_streams(*final(comp)) == crate::cfbio::container_streams(
            *old(comp),
        ),
        crate::cfbio::container_entries(*final(comp)) == crate::cfbio::container_entries(
            *old(comp),
        ),
        ({
            let s = crate::cfbio::container_streams(*old(comp));
            let p = storage_path@ + "__properties_version1.0"@;
            match r {
                Ok(t) => s.dom().contains(p) && top_props_of(s[p]) == Ok::<
                    TopPropertiesView,
                    Error,
                >(t@),
                Err(e) => (!s.dom().contains(p) && e == Error::MissingProperties) || (
                s.dom().contains(p) && top_props_of(s[p]) == Err::<TopPropertiesView, Error>(e)),
            }
        }),
{
    let mut path = <String as vstd::string::StringExecFns>::from_str(storage_path);
    <String as vstd::string::StringExecFns>::append(&mut path, "__properties_version1.0");
    match crate::cfbio::stream_bytes(comp, path.as_str()) {
        Some(bytes) => parse_property_stream_header_top_level(bytes.as_slice()),
        None => Err(Error::MissingProperties),
    }
}

/// Opens and parses the property stream of a recipient or attachment
/// storage whose path prefix, separator included, is `storage_path`.
pub fn parse_property_stream_other(
    comp: &mut crate::cfbio::MsgContainer,
    storage_path: &str,
) -> (r: Result<Properties, Error>)
    ensures
        crate::cfbio::container_streams(*final(comp)) == crate::cfbio::container_streams(
            *old(comp),
        ),
        crate::cfbio::container_entries(*final(comp)) == crate::cfbio::container_entries(
            *old(comp),
        ),
        ({
            let s = crate::cfbio::container_streams(*old(comp));
            let p = storage_path@ + "__properties_version1.0"@;
            match r {
                Ok(t) => s.dom().contains(p) && sub_props_of(s[p]) == Ok::<
                    PropertiesView,
                    Error,
                >(t@),
                Err(e) => (!s.dom().contains(p) && e == Error::MissingProperties) || (
                s.dom().contains(p) && sub_props_of(s[p]) == Err::<PropertiesView, Error>(e)),
            }
        }),
{
    let mut path = <String as vstd::string::StringExecFns>::from_str(storage_path);
    <String as vstd::string::StringExecFns>::append(&mut path, "__properties_version1.0");
    match crate::cfbio::stream_bytes(comp, path.as_str()) {
        Some(bytes) => parse_property_stream_header_other(bytes.as_slice()),
        None => Err(Error::MissingProperties),
    }
}

} // verus!
