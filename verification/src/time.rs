//! Win32 FILETIME timestamps and their conversion to UTC instants.
//!
//! A FILETIME counts 100-nanosecond ticks since 1601-01-01T00:00:00Z.  A
//! [`UtcTime`] carries the same instant as seconds since the Unix epoch
//! (1970-01-01T00:00:00Z) plus a non-negative nanosecond remainder.

use vstd::prelude::*;
use crate::Error;

verus! {

/// Seconds between 1601-01-01 and 1970-01-01, both at midnight UTC.
pub const EPOCH_DELTA_SECONDS: i64 = 11_644_473_600;

/// FILETIME ticks per second.
pub const TICKS_PER_SECOND: i64 = 10_000_000;

/// A UTC instant: seconds since the Unix epoch (negative before it) and a
/// nanosecond remainder that is always non-negative.
#[derive(Copy, Clone, Debug, PartialEq, Eq, Hash, Structural)]
pub struct UtcTime {
    /// Whole seconds since 1970-01-01T00:00:00Z.
    pub seconds: i64,
    /// Nanoseconds past the whole second, in `[0, 10^9)`.
    pub nanoseconds: u32,
}

impl UtcTime {
    /// The nanosecond field stays below one second.
    pub open spec fn wf(self) -> bool {
        self.nanoseconds < 1_000_000_000
    }
}

/// The whole seconds since the Unix epoch of the instant `f` FILETIME ticks
/// after 1601 (Euclidean division, so it rounds toward minus infinity).
pub open spec fn filetime_seconds(f: int) -> int {
    f / 10_000_000 - 11_644_473_600
}

/// The non-negative nanosecond remainder of the instant `f` ticks after 1601.
pub open spec fn filetime_nanos(f: int) -> int {
    (f % 10_000_000) * 100
}

/// The FILETIME tick count of the instant `seconds` and `nanos` describe.
pub open spec fn filetime_of(seconds: int, nanos: int) -> int {
    (seconds + 11_644_473_600) * 10_000_000 + nanos / 100
}

/// Converts a FILETIME tick count to a UTC instant.  Total: every 64-bit
/// tick count has whole seconds and a nanosecond remainder in `[0, 10^9)`.
pub fn filetime_to_utc(f: i64) -> (r: UtcTime)
    ensures
        r.seconds == filetime_seconds(f as int),
        r.nanoseconds == filetime_nanos(f as int),
        r.wf(),
{
    let q = match f.checked_div_euclid(TICKS_PER_SECOND) {
        Some(q) => q,
        None => {
            proof {
                assert(i64::MIN <= f as int / 10_000_000 <= i64::MAX);
                assert(false);
            }
            0
        },
    };
    let rem = match f.checked_rem_euclid(TICKS_PER_SECOND) {
        Some(rem) => rem,
        None => {
            proof {
                assert(false);
            }
            0
        },
    };
    UtcTime { seconds: q - EPOCH_DELTA_SECONDS, nanoseconds: (rem as u32) * 100 }
}

/// Converts a UTC instant back to a FILETIME tick count; fails when the
/// instant lies outside the 64-bit FILETIME range.  Nanoseconds are rounded
/// down to the containing tick.
pub fn utc_to_filetime(t: UtcTime) -> (r: Result<i64, Error>)
    requires
        t.wf(),
    ensures
        r is Ok <==> i64::MIN <= (t.seconds + 11_644_473_600) * 10_000_000 && (t.seconds
            + 11_644_473_600) * 10_000_000 + t.nanoseconds / 100 <= i64::MAX,
        r matches Ok(f) ==> f == filetime_of(t.seconds as int, t.nanoseconds as int),
{
    let base = match t.seconds.checked_add(EPOCH_DELTA_SECONDS) {
        Some(b) => b,
        None => {
            return Err(Error::TimeOverflow);
        },
    };
    let ticks = match base.checked_mul(TICKS_PER_SECOND) {
        Some(x) => x,
        None => {
            return Err(Error::TimeOverflow);
        },
    };
    let sub = (t.nanoseconds / 100) as i64;
    match ticks.checked_add(sub) {
        Some(f) => Ok(f),
        None => Err(Error::TimeOverflow),
    }
}

/// Converting a FILETIME to a UTC instant and back is the identity; stated
/// for tick counts within a hundred years of the Unix epoch.
pub proof fn lemma_filetime_roundtrip(f: i64)
    requires
        84_887_784_000_000_000 <= f <= 148_001_688_000_000_000,
    ensures
        filetime_of(filetime_seconds(f as int), filetime_nanos(f as int)) == f,
        filetime_nanos(f as int) % 100 == 0,
        0 <= filetime_nanos(f as int) < 1_000_000_000,
{
    vstd::arithmetic::div_mod::lemma_fundamental_div_mod(f as int, 10_000_000);
    let q = f as int / 10_000_000;
    let m = f as int % 10_000_000;
    assert(filetime_nanos(f as int) / 100 == m) by {
        vstd::arithmetic::div_mod::lemma_div_multiples_vanish(m, 100);
    }
}

/// Converting whole seconds and a nanosecond remainder to a FILETIME and
/// back is the identity, whenever the nanoseconds are a multiple of 100
/// ticks and the instant fits the 64-bit FILETIME range.
pub proof fn lemma_utc_roundtrip(seconds: int, nanos: int)
    requires
        0 <= nanos < 1_000_000_000,
        nanos % 100 == 0,
        i64::MIN <= filetime_of(seconds, nanos) <= i64::MAX,
    ensures
        filetime_seconds(filetime_of(seconds, nanos)) == seconds,
        filetime_nanos(filetime_of(seconds, nanos)) == nanos,
{
    let base = seconds + 11_644_473_600;
    let sub = nanos / 100;
    let f = base * 10_000_000 + sub;
    assert(0 <= sub < 10_000_000);
    assert(f / 10_000_000 == base && f % 10_000_000 == sub) by {
        vstd::arithmetic::div_mod::lemma_fundamental_div_mod_converse(f, 10_000_000, base, sub);
    }
    assert(sub * 100 == nanos) by {
        vstd::arithmetic::div_mod::lemma_fundamental_div_mod(nanos, 100);
    }
}

} // verus!
