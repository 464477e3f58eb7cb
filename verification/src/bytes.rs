//! Little-endian byte readers, UTF-16LE text decoding, and hexadecimal
//! formatting: the primitives every stream parser in this crate builds on.

use vstd::prelude::*;
use vstd::slice::{slice_subrange, slice_to_vec};
use crate::Error;

verus! {

// ---------------------------------------------------------------------------
// Little-endian integers
// ---------------------------------------------------------------------------

/// The 16-bit value stored little-endian in the first two bytes of `b`.
pub open spec fn le16(b: Seq<u8>) -> u16
    recommends
        b.len() >= 2,
{
    (b[0] + b[1] * 0x100) as u16
}

/// The 32-bit value stored little-endian in the first four bytes of `b`.
pub open spec fn le32(b: Seq<u8>) -> u32
    recommends
        b.len() >= 4,
{
    (b[0] + b[1] * 0x100 + b[2] * 0x10000 + b[3] * 0x1000000) as u32
}

/// The 64-bit value stored little-endian in the first eight bytes of `b`.
pub open spec fn le64(b: Seq<u8>) -> u64
    recommends
        b.len() >= 8,
{
    (le32(b) + le32(b.skip(4)) * 0x100000000) as u64
}

/// Reinterprets a 16-bit unsigned value as two's-complement signed.
pub open spec fn as_signed16(u: u16) -> i16 {
    if u < 0x8000 {
        u as i16
    } else {
        (u - 0x10000) as i16
    }
}

/// Reinterprets a 32-bit unsigned value as two's-complement signed.
pub open spec fn as_signed32(u: u32) -> i32 {
    if u < 0x8000_0000 {
        u as i32
    } else {
        (u - 0x1_0000_0000) as i32
    }
}

/// Reinterprets a 64-bit unsigned value as two's-complement signed.
pub open spec fn as_signed64(u: u64) -> i64 {
    if u < 0x8000_0000_0000_0000 {
        u as i64
    } else {
        (u - 0x1_0000_0000_0000_0000) as i64
    }
}

/// Reads a little-endian `u16` from the head of `bytes`.
pub fn read_u16_le(bytes: &[u8]) -> (r: Result<u16, Error>)
    ensures
        bytes@.len() >= 2 ==> r == Ok::<u16, Error>(le16(bytes@)),
        bytes@.len() < 2 ==> r == Err::<u16, Error>(Error::ShortInput),
{
    if bytes.len() < 2 {
        return Err(Error::ShortInput);
    }
    Ok(bytes[0] as u16 + (bytes[1] as u16) * 0x100)
}

/// Reads a little-endian `u32` from the head of `bytes`.
pub fn read_u32_le(bytes: &[u8]) -> (r: Result<u32, Error>)
    ensures
        bytes@.len() >= 4 ==> r == Ok::<u32, Error>(le32(bytes@)),
        bytes@.len() < 4 ==> r == Err::<u32, Error>(Error::ShortInput),
{
    if bytes.len() < 4 {
        return Err(Error::ShortInput);
    }
    Ok(bytes[0] as u32 + (bytes[1] as u32) * 0x100 + (bytes[2] as u32) * 0x10000 + (
    bytes[3] as u32) * 0x1000000)
}

/// Reads a little-endian `u64` from the head of `bytes`.
pub fn read_u64_le(bytes: &[u8]) -> (r: Result<u64, Error>)
    ensures
        bytes@.len() >= 8 ==> r == Ok::<u64, Error>(le64(bytes@)),
        bytes@.len() < 8 ==> r == Err::<u64, Error>(Error::ShortInput),
{
    if bytes.len() < 8 {
        return Err(Error::ShortInput);
    }
    let lo = bytes[0] as u64 + (bytes[1] as u64) * 0x100 + (bytes[2] as u64) * 0x10000 + (
    bytes[3] as u64) * 0x1000000;
    let hi = bytes[4] as u64 + (bytes[5] as u64) * 0x100 + (bytes[6] as u64) * 0x10000 + (
    bytes[7] as u64) * 0x1000000;
    assert(bytes@.skip(4)[0] == bytes@[4]);
    assert(bytes@.skip(4)[1] == bytes@[5]);
    assert(bytes@.skip(4)[2] == bytes@[6]);
    assert(bytes@.skip(4)[3] == bytes@[7]);
    Ok(lo + hi * 0x100000000)
}

/// Reads a little-endian `i16` from the head of `bytes`.
pub fn read_i16_le(bytes: &[u8]) -> (r: Result<i16, Error>)
    ensures
        bytes@.len() >= 2 ==> r == Ok::<i16, Error>(as_signed16(le16(bytes@))),
        bytes@.len() < 2 ==> r == Err::<i16, Error>(Error::ShortInput),
{
    match read_u16_le(bytes) {
        Ok(u) => {
            if u < 0x8000 {
                Ok(u as i16)
            } else {
                Ok(-((u16::MAX - u) as i16) - 1)
            }
        },
        Err(e) => Err(e),
    }
}

/// Reads a little-endian `i32` from the head of `bytes`.
pub fn read_i32_le(bytes: &[u8]) -> (r: Result<i32, Error>)
    ensures
        bytes@.len() >= 4 ==> r == Ok::<i32, Error>(as_signed32(le32(bytes@))),
        bytes@.len() < 4 ==> r == Err::<i32, Error>(Error::ShortInput),
{
    match read_u32_le(bytes) {
        Ok(u) => {
            if u < 0x8000_0000 {
                Ok(u as i32)
            } else {
                Ok(-((u32::MAX - u) as i32) - 1)
            }
        },
        Err(e) => Err(e),
    }
}

/// Reads a little-endian `i64` from the head of `bytes`.
pub fn read_i64_le(bytes: &[u8]) -> (r: Result<i64, Error>)
    ensures
        bytes@.len() >= 8 ==> r == Ok::<i64, Error>(as_signed64(le64(bytes@))),
        bytes@.len() < 8 ==> r == Err::<i64, Error>(Error::ShortInput),
{
    match read_u64_le(bytes) {
        Ok(u) => {
            if u < 0x8000_0000_0000_0000 {
                Ok(u as i64)
            } else {
                Ok(-((u64::MAX - u) as i64) - 1)
            }
        },
        Err(e) => Err(e),
    }
}

/// Copies `bytes[start..end]` into an owned vector.
pub fn sub_bytes(bytes: &[u8], start: usize, end: usize) -> (r: Result<Vec<u8>, Error>)
    ensures
        r is Ok <==> start <= end <= bytes@.len(),
        r matches Ok(v) ==> v@ == bytes@.subrange(start as int, end as int),
{
    if start <= end && end <= bytes.len() {
        Ok(slice_to_vec(slice_subrange(bytes, start, end)))
    } else {
        Err(Error::ShortInput)
    }
}

// ---------------------------------------------------------------------------
// UTF-16LE text
// ---------------------------------------------------------------------------

/// The character substituted for an unpaired surrogate during lossy decoding.
pub const REPLACEMENT: char = '\u{FFFD}';

/// The sequence of 16-bit code units stored little-endian in `b`; a trailing
/// odd byte is ignored.
pub open spec fn utf16_units(b: Seq<u8>) -> Seq<u16> {
    Seq::new(b.len() / 2, |i: int| (b[2 * i] + b[2 * i + 1] * 0x100) as u16)
}

/// Whether `u` is a UTF-16 high (leading) surrogate.
pub open spec fn is_high_surrogate(u: u16) -> bool {
    0xD800 <= u <= 0xDBFF
}

/// Whether `u` is a UTF-16 low (trailing) surrogate.
pub open spec fn is_low_surrogate(u: u16) -> bool {
    0xDC00 <= u <= 0xDFFF
}

/// The scalar value encoded by a surrogate pair.
pub open spec fn surrogate_scalar(hi: u16, lo: u16) -> u32
    recommends
        is_high_surrogate(hi),
        is_low_surrogate(lo),
{
    (0x10000 + (hi - 0xD800) * 0x400 + (lo - 0xDC00)) as u32
}

/// Lossy UTF-16 decoding: surrogate pairs combine, unpaired surrogates
/// become the replacement character, every other unit is itself a character.
pub open spec fn utf16_decode(us: Seq<u16>) -> Seq<char>
    decreases us.len(),
{
    if us.len() == 0 {
        Seq::<char>::empty()
    } else if is_high_surrogate(us[0]) && us.len() >= 2 && is_low_surrogate(us[1]) {
        seq![surrogate_scalar(us[0], us[1]) as char] + utf16_decode(us.skip(2))
    } else if is_high_surrogate(us[0]) || is_low_surrogate(us[0]) {
        seq![REPLACEMENT] + utf16_decode(us.skip(1))
    } else {
        seq![us[0] as char] + utf16_decode(us.skip(1))
    }
}

/// Relies on char::from_u32: `Some` exactly on Unicode scalar values, which
/// it maps to the character with that value.
#[verifier::external_body]
fn char_from_u32(v: u32) -> (r: Option<char>)
    ensures
        (v < 0xD800 || (0xE000 <= v && v <= 0x10FFFF)) ==> r == Some(v as char),
        !(v < 0xD800 || (0xE000 <= v && v <= 0x10FFFF)) ==> r is None,
{
    char::from_u32(v)
}

/// Relies on String::push: appends one character to the string.
#[verifier::external_body]
fn push_char(s: &mut String, c: char)
    ensures
        final(s)@ == old(s)@.push(c),
{
    s.push(c)
}

/// Splits a byte slice into its little-endian 16-bit code units; the byte
/// count must be even.
pub fn read_le_u16(input: &[u8]) -> (r: Result<Vec<u16>, Error>)
    ensures
        input@.len() % 2 == 0 ==> (r matches Ok(v) && v@ == utf16_units(input@)),
        input@.len() % 2 != 0 ==> r == Err::<Vec<u16>, Error>(Error::OddByteCount),
{
    if input.len() % 2 != 0 {
        return Err(Error::OddByteCount);
    }
    let n = input.len() / 2;
    proof {
        vstd::arithmetic::div_mod::lemma_fundamental_div_mod(input@.len() as int, 2);
    }
    let mut units: Vec<u16> = Vec::new();
    let mut i: usize = 0;
    while i < n
        invariant
            i <= n,
            n == input@.len() / 2,
            2 * n == input@.len(),
            2 * n <= usize::MAX,
            units@.len() == i,
            forall|j: int| 0 <= j < i ==> units@[j] == utf16_units(input@)[j],
        decreases n - i,
    {
        let unit = input[2 * i] as u16 + (input[2 * i + 1] as u16) * 0x100;
        units.push(unit);
        i = i + 1;
    }
    assert(units@ =~= utf16_units(input@));
    Ok(units)
}

/// Decodes a sequence of UTF-16 code units into a string, lossily.
fn decode_units(units: &[u16]) -> (r: String)
    ensures
        r@ == utf16_decode(units@),
{
    let n = units.len();
    let mut out = String::new();
    let mut i: usize = 0;
    proof {
        assert(units@.skip(0) =~= units@);
        assert(out@ + utf16_decode(units@) =~= utf16_decode(units@));
    }
    while i < n
        invariant
            i <= n,
            n == units@.len(),
            utf16_decode(units@) == out@ + utf16_decode(units@.skip(i as int)),
        decreases n - i,
    {
        let ghost pre = units@.skip(i as int);
        let ghost prior = out@;
        let u = units[i];
        if 0xD800 <= u && u <= 0xDBFF && i + 1 < n && 0xDC00 <= units[i + 1] && units[i + 1]
            <= 0xDFFF {
            let lo = units[i + 1];
            let v: u32 = 0x10000 + (u as u32 - 0xD800) * 0x400 + (lo as u32 - 0xDC00);
            match char_from_u32(v) {
                Some(c) => {
                    push_char(&mut out, c);
                    proof {
                        assert(pre.skip(2) =~= units@.skip(i + 2));
                        assert(pre[0] == u && pre[1] == lo);
                        assert(utf16_decode(pre) == seq![v as char] + utf16_decode(pre.skip(2)));
                        assert(out@ + utf16_decode(units@.skip(i + 2)) =~= prior + utf16_decode(
                            pre,
                        ));
                    }
                },
                None => {
                    proof {
                        assert(false);
                    }
                },
            }
            i = i + 2;
        } else if 0xD800 <= u && u <= 0xDFFF {
            push_char(&mut out, '\u{FFFD}');
            proof {
                assert(pre.skip(1) =~= units@.skip(i + 1));
                assert(pre[0] == u);
                assert(utf16_decode(pre) == seq!['\u{FFFD}'] + utf16_decode(pre.skip(1)));
                assert(out@ + utf16_decode(units@.skip(i + 1)) =~= prior + utf16_decode(pre));
            }
            i = i + 1;
        } else {
            match char_from_u32(u as u32) {
                Some(c) => {
                    push_char(&mut out, c);
                    proof {
                        assert(pre.skip(1) =~= units@.skip(i + 1));
                        assert(pre[0] == u);
                        assert(utf16_decode(pre) == seq![u as char] + utf16_decode(pre.skip(1)));
                        assert(out@ + utf16_decode(units@.skip(i + 1)) =~= prior + utf16_decode(
                            pre,
                        ));
                    }
                },
                None => {
                    proof {
                        assert(false);
                    }
                },
            }
            i = i + 1;
        }
    }
    proof {
        assert(units@.skip(n as int) =~= Seq::<u16>::empty());
        assert(out@ + utf16_decode(units@.skip(n as int)) =~= out@);
    }
    out
}

/// What a UTF-16LE byte string decodes to: its text, or a failure on an
/// odd byte count.
pub open spec fn read_of(bytes: Seq<u8>) -> Result<Seq<char>, Error> {
    if bytes.len() % 2 != 0 {
        Err(Error::OddByteCount)
    } else {
        Ok(utf16_decode(utf16_units(bytes)))
    }
}

/// Decodes a UTF-16LE byte string: the length must be even, unpaired
/// surrogates are replaced lossily.
pub fn read(bytes: &[u8]) -> (r: Result<String, Error>)
    ensures
        match r {
            Ok(s) => read_of(bytes@) == Ok::<Seq<char>, Error>(s@),
            Err(e) => read_of(bytes@) == Err::<Seq<char>, Error>(e),
        },
{
    match read_le_u16(bytes) {
        Ok(units) => Ok(decode_units(units.as_slice())),
        Err(e) => Err(e),
    }
}

// ---------------------------------------------------------------------------
// Round trip: encoding a string of basic-plane characters as UTF-16LE and
// decoding it again is the identity.
// ---------------------------------------------------------------------------

/// UTF-16LE encoding of a string whose characters all lie in the basic
/// multilingual plane: one code unit, two bytes, per character.
pub open spec fn utf16_encode_bmp(s: Seq<char>) -> Seq<u8>
    recommends
        forall|i: int| 0 <= i < s.len() ==> (s[i] as u32) < 0x10000,
    decreases s.len(),
{
    if s.len() == 0 {
        Seq::<u8>::empty()
    } else {
        seq![((s[0] as u32) % 0x100) as u8, ((s[0] as u32) / 0x100) as u8] + utf16_encode_bmp(
            s.drop_first(),
        )
    }
}

/// UTF-16LE encoding followed by lossy decoding is the identity on strings
/// of basic-multilingual-plane characters.
pub proof fn lemma_utf16_bmp_roundtrip(s: Seq<char>)
    requires
        forall|i: int| 0 <= i < s.len() ==> (s[i] as u32) < 0x10000,
    ensures
        utf16_decode(utf16_units(utf16_encode_bmp(s))) == s,
    decreases s.len(),
{
    if s.len() == 0 {
        assert(utf16_decode(utf16_units(utf16_encode_bmp(s))) =~= s);
    } else {
        let c = s[0];
        vstd::utf8::char_is_scalar(c);
        let cv = c as u32;
        let rest = s.drop_first();
        let b = utf16_encode_bmp(s);
        let us = utf16_units(b);
        assert(b == seq![(cv % 0x100) as u8, (cv / 0x100) as u8] + utf16_encode_bmp(rest));
        assert(b[0] == (cv % 0x100) as u8 && b[1] == (cv / 0x100) as u8);
        assert(us[0] == ((cv % 0x100) + (cv / 0x100) * 0x100) as u16);
        assert((cv % 0x100) + (cv / 0x100) * 0x100 == cv) by {
            vstd::arithmetic::div_mod::lemma_fundamental_div_mod(cv as int, 0x100);
        }
        assert(us[0] == cv as u16);
        // A char is never a surrogate, so the unit decodes to itself.
        assert(!is_high_surrogate(us[0]) && !is_low_surrogate(us[0]));
        vstd::utf8::char_u32_cast(c, cv);
        assert(us[0] as char == c);
        assert(utf16_units(utf16_encode_bmp(rest)) =~= us.skip(1)) by {
            assert(utf16_encode_bmp(rest) =~= b.skip(2));
        }
        lemma_utf16_bmp_roundtrip(rest);
        assert(utf16_decode(us) =~= seq![c] + utf16_decode(us.skip(1)));
        assert(utf16_decode(utf16_units(b)) =~= s);
    }
}

// ---------------------------------------------------------------------------
// Upper-case hexadecimal formatting
// ---------------------------------------------------------------------------

/// The upper-case hexadecimal digit character for a value below sixteen.
pub open spec fn hex_digit_char(d: u8) -> char
    recommends
        d < 16,
{
    if d == 0 {
        '0'
    } else if d == 1 {
        '1'
    } else if d == 2 {
        '2'
    } else if d == 3 {
        '3'
    } else if d == 4 {
        '4'
    } else if d == 5 {
        '5'
    } else if d == 6 {
        '6'
    } else if d == 7 {
        '7'
    } else if d == 8 {
        '8'
    } else if d == 9 {
        '9'
    } else if d == 10 {
        'A'
    } else if d == 11 {
        'B'
    } else if d == 12 {
        'C'
    } else if d == 13 {
        'D'
    } else if d == 14 {
        'E'
    } else {
        'F'
    }
}

/// The last `digits` upper-case hexadecimal digits of `n`, zero-padded.
pub open spec fn hex_seq(n: u32, digits: nat) -> Seq<char>
    decreases digits,
{
    if digits == 0 {
        Seq::<char>::empty()
    } else {
        hex_seq(n / 16, (digits - 1) as nat).push(hex_digit_char((n % 16) as u8))
    }
}

fn hex_digit(d: u8) -> (r: char)
    requires
        d < 16,
    ensures
        r == hex_digit_char(d),
{
    if d == 0 {
        '0'
    } else if d == 1 {
        '1'
    } else if d == 2 {
        '2'
    } else if d == 3 {
        '3'
    } else if d == 4 {
        '4'
    } else if d == 5 {
        '5'
    } else if d == 6 {
        '6'
    } else if d == 7 {
        '7'
    } else if d == 8 {
        '8'
    } else if d == 9 {
        '9'
    } else if d == 10 {
        'A'
    } else if d == 11 {
        'B'
    } else if d == 12 {
        'C'
    } else if d == 13 {
        'D'
    } else if d == 14 {
        'E'
    } else {
        'F'
    }
}

/// Whether a character is an upper-case hexadecimal digit.
pub open spec fn is_hex_upper_char(c: char) -> bool {
    ('0' <= c && c <= '9') || ('A' <= c && c <= 'F')
}

/// A hexadecimal rendering has exactly as many characters as requested,
/// and each is an upper-case hexadecimal digit.
pub proof fn lemma_hex_seq_chars(n: u32, digits: nat)
    ensures
        hex_seq(n, digits).len() == digits,
        forall|k: int| 0 <= k < digits ==> is_hex_upper_char(#[trigger] hex_seq(n, digits)[k]),
    decreases digits,
{
    if digits > 0 {
        lemma_hex_seq_chars(n / 16, (digits - 1) as nat);
        assert(is_hex_upper_char(hex_digit_char((n % 16) as u8)));
    }
}

/// Formats `n` as exactly `digits` upper-case hexadecimal digits.
pub fn hex_upper(n: u32, digits: usize) -> (r: String)
    ensures
        r@ == hex_seq(n, digits as nat),
    decreases digits,
{
    if digits == 0 {
        String::new()
    } else {
        let mut s = hex_upper(n / 16, digits - 1);
        push_char(&mut s, hex_digit((n % 16) as u8));
        s
    }
}

} // verus!
