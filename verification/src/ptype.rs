//! The closed registry of MAPI property types and their 16-bit tags.

use vstd::prelude::*;

verus! {

/// A MAPI property type.  Each variant corresponds to one 16-bit tag; the
/// `Multiple` variants are the multi-valued counterparts.
#[derive(Copy, Clone, Debug, PartialEq, Eq, Hash, Structural)]
pub enum PType {
    Integer16,
    Integer32,
    Floating32,
    Floating64,
    Currency,
    FloatingTime,
    ErrorCode,
    Boolean,
    Integer64,
    String,
    String8,
    Time,
    Guid,
    ServerId,
    Restriction,
    RuleAction,
    Binary,
    MultipleInteger16,
    MultipleInteger32,
    MultipleFloating32,
    MultipleFloating64,
    MultipleCurrency,
    MultipleFloatingTime,
    MultipleInteger64,
    MultipleString,
    MultipleString8,
    MultipleTime,
    MultipleGuid,
    MultipleBinary,
    Unspecified,
    Null,
    Object,
}

/// The 16-bit tag of a property type.
pub open spec fn ptype_code(t: PType) -> u16 {
    match t {
        PType::Integer16 => 0x0002,
        PType::Integer32 => 0x0003,
        PType::Floating32 => 0x0004,
        PType::Floating64 => 0x0005,
        PType::Currency => 0x0006,
        PType::FloatingTime => 0x0007,
        PType::ErrorCode => 0x000A,
        PType::Boolean => 0x000B,
        PType::Integer64 => 0x0014,
        PType::String => 0x001F,
        PType::String8 => 0x001E,
        PType::Time => 0x0040,
        PType::Guid => 0x0048,
        PType::ServerId => 0x00FB,
        PType::Restriction => 0x00FD,
        PType::RuleAction => 0x00FE,
        PType::Binary => 0x0102,
        PType::MultipleInteger16 => 0x1002,
        PType::MultipleInteger32 => 0x1003,
        PType::MultipleFloating32 => 0x1004,
        PType::MultipleFloating64 => 0x1005,
        PType::MultipleCurrency => 0x1006,
        PType::MultipleFloatingTime => 0x1007,
        PType::MultipleInteger64 => 0x1014,
        PType::MultipleString => 0x101F,
        PType::MultipleString8 => 0x101E,
        PType::MultipleTime => 0x1040,
        PType::MultipleGuid => 0x1048,
        PType::MultipleBinary => 0x1102,
        PType::Unspecified => 0x0000,
        PType::Null => 0x0001,
        PType::Object => 0x000D,
    }
}

/// Whether a 16-bit value is the tag of some property type.
pub open spec fn is_ptype_code(bits: u16) -> bool {
    exists|t: PType| ptype_code(t) == bits
}

/// The property type a 16-bit tag decodes to.  Decoding is total: an
/// unknown tag degrades to `Null`, tolerating malformed files.
pub open spec fn ptype_of_code(bits: u16) -> PType {
    if bits == 0x0002 {
        PType::Integer16
    } else if bits == 0x0003 {
        PType::Integer32
    } else if bits == 0x0004 {
        PType::Floating32
    } else if bits == 0x0005 {
        PType::Floating64
    } else if bits == 0x0006 {
        PType::Currency
    } else if bits == 0x0007 {
        PType::FloatingTime
    } else if bits == 0x000A {
        PType::ErrorCode
    } else if bits == 0x000B {
        PType::Boolean
    } else if bits == 0x0014 {
        PType::Integer64
    } else if bits == 0x001F {
        PType::String
    } else if bits == 0x001E {
        PType::String8
    } else if bits == 0x0040 {
        PType::Time
    } else if bits == 0x0048 {
        PType::Guid
    } else if bits == 0x00FB {
        PType::ServerId
    } else if bits == 0x00FD {
        PType::Restriction
    } else if bits == 0x00FE {
        PType::RuleAction
    } else if bits == 0x0102 {
        PType::Binary
    } else if bits == 0x1002 {
        PType::MultipleInteger16
    } else if bits == 0x1003 {
        PType::MultipleInteger32
    } else if bits == 0x1004 {
        PType::MultipleFloating32
    } else if bits == 0x1005 {
        PType::MultipleFloating64
    } else if bits == 0x1006 {
        PType::MultipleCurrency
    } else if bits == 0x1007 {
        PType::MultipleFloatingTime
    } else if bits == 0x1014 {
        PType::MultipleInteger64
    } else if bits == 0x101F {
        PType::MultipleString
    } else if bits == 0x101E {
        PType::MultipleString8
    } else if bits == 0x1040 {
        PType::MultipleTime
    } else if bits == 0x1048 {
        PType::MultipleGuid
    } else if bits == 0x1102 {
        PType::MultipleBinary
    } else if bits == 0x0000 {
        PType::Unspecified
    } else if bits == 0x0001 {
        PType::Null
    } else if bits == 0x000D {
        PType::Object
    } else {
        PType::Null
    }
}

impl PType {
    /// Decodes a 16-bit tag; an unknown tag yields `Null`.
    pub fn from_bits(bits: u16) -> (r: Self)
        ensures
            r == ptype_of_code(bits),
    {
        match bits {
            0x0002 => Self::Integer16,
            0x0003 => Self::Integer32,
            0x0004 => Self::Floating32,
            0x0005 => Self::Floating64,
            0x0006 => Self::Currency,
            0x0007 => Self::FloatingTime,
            0x000A => Self::ErrorCode,
            0x000B => Self::Boolean,
            0x0014 => Self::Integer64,
            0x001F => Self::String,
            0x001E => Self::String8,
            0x0040 => Self::Time,
            0x0048 => Self::Guid,
            0x00FB => Self::ServerId,
            0x00FD => Self::Restriction,
            0x00FE => Self::RuleAction,
            0x0102 => Self::Binary,
            0x1002 => Self::MultipleInteger16,
            0x1003 => Self::MultipleInteger32,
            0x1004 => Self::MultipleFloating32,
            0x1005 => Self::MultipleFloating64,
            0x1006 => Self::MultipleCurrency,
            0x1007 => Self::MultipleFloatingTime,
            0x1014 => Self::MultipleInteger64,
            0x101F => Self::MultipleString,
            0x101E => Self::MultipleString8,
            0x1040 => Self::MultipleTime,
            0x1048 => Self::MultipleGuid,
            0x1102 => Self::MultipleBinary,
            0x0000 => Self::Unspecified,
            0x0001 => Self::Null,
            0x000D => Self::Object,
            _ => Self::Null,
        }
    }

    /// The 16-bit tag of this property type.
    pub fn to_bits(&self) -> (r: u16)
        ensures
            r == ptype_code(*self),
    {
        match self {
            Self::Integer16 => 0x0002,
            Self::Integer32 => 0x0003,
            Self::Floating32 => 0x0004,
            Self::Floating64 => 0x0005,
            Self::Currency => 0x0006,
            Self::FloatingTime => 0x0007,
            Self::ErrorCode => 0x000A,
            Self::Boolean => 0x000B,
            Self::Integer64 => 0x0014,
            Self::String => 0x001F,
            Self::String8 => 0x001E,
            Self::Time => 0x0040,
            Self::Guid => 0x0048,
            Self::ServerId => 0x00FB,
            Self::Restriction => 0x00FD,
            Self::RuleAction => 0x00FE,
            Self::Binary => 0x0102,
            Self::MultipleInteger16 => 0x1002,
            Self::MultipleInteger32 => 0x1003,
            Self::MultipleFloating32 => 0x1004,
            Self::MultipleFloating64 => 0x1005,
            Self::MultipleCurrency => 0x1006,
            Self::MultipleFloatingTime => 0x1007,
            Self::MultipleInteger64 => 0x1014,
            Self::MultipleString => 0x101F,
            Self::MultipleString8 => 0x101E,
            Self::MultipleTime => 0x1040,
            Self::MultipleGuid => 0x1048,
            Self::MultipleBinary => 0x1102,
            Self::Unspecified => 0x0000,
            Self::Null => 0x0001,
            Self::Object => 0x000D,
        }
    }
}

/// Encoding a property type as its tag and decoding it again is the
/// identity, for every variant of the registry.
pub proof fn lemma_ptype_roundtrip(t: PType)
    ensures
        ptype_of_code(ptype_code(t)) == t,
{
}

/// Decoding a well-known tag and encoding the result again is the identity.
pub proof fn lemma_ptype_code_roundtrip(bits: u16)
    requires
        is_ptype_code(bits),
    ensures
        ptype_code(ptype_of_code(bits)) == bits,
{
    let t = choose|t: PType| ptype_code(t) == bits;
    lemma_ptype_roundtrip(t);
}

} // verus!
