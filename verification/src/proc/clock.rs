//! Readings of the system clock, and the time-ordered ids made from them.

use vstd::prelude::*;

use super::types::{ts_le, later_of, Timestamp};

verus! {

#[verifier::external_type_specification]
#[verifier::external_body]
pub struct ExSystemTime(std::time::SystemTime);

/// Reads the system clock with `std::time::SystemTime::now`.
///
/// Trusted: nothing is stated of the reading; it is the time of the call.
#[verifier::external_body]
fn system_now() -> std::time::SystemTime {
    std::time::SystemTime::now()
}

/// How long after the Unix epoch a clock reading lies, with
/// `std::time::SystemTime::duration_since(UNIX_EPOCH)`; `None` when it lies before the epoch.
///
/// Trusted: `duration_since` fails exactly when the reading is earlier than the epoch. Which
/// duration comes back depends on the reading, which is opaque here, so nothing more is stated.
#[verifier::external_body]
fn since_unix_epoch(t: &std::time::SystemTime) -> Option<core::time::Duration> {
    match t.duration_since(std::time::UNIX_EPOCH) {
        Ok(d) => Some(d),
        Err(_) => None,
    }
}

/// `Duration::as_secs`: the whole seconds of a duration. A duration is opaque here, so nothing is
/// stated of them.
pub assume_specification[ core::time::Duration::as_secs ](d: &core::time::Duration) -> u64;

/// `Duration::subsec_nanos`: the fractional part of a duration in nanoseconds, which the
/// documentation promises is less than one billion.
pub assume_specification[ core::time::Duration::subsec_nanos ](d: &core::time::Duration) -> (n: u32)
    ensures
        n < 1_000_000_000,
;

/// Whether a timestamp is a valid instant at or after the epoch.
pub open spec fn valid_instant(t: Timestamp) -> bool {
    t.secs >= 0 && t.nanos < 1_000_000_000
}

/// The current time, or `None` when the clock reads before the epoch or too far after it for
/// whole seconds to fit in an `i64`.
pub(crate) fn clock_now() -> (res: Option<Timestamp>)
    ensures
        res matches Some(t) ==> valid_instant(t),
{
    let now = system_now();
    match since_unix_epoch(&now) {
        Some(d) => {
            let secs = d.as_secs();
            let nanos = d.subsec_nanos();
            if secs <= 0x7fff_ffff_ffff_ffff {
                Some(Timestamp { secs: secs as i64, nanos })
            } else {
                None
            }
        },
        None => None,
    }
}

/// The current time; a clock that cannot be read as an instant after the epoch reads as the
/// epoch itself.
pub(crate) fn now_or_epoch() -> (t: Timestamp)
    ensures
        valid_instant(t),
{
    match clock_now() {
        Some(t) => t,
        None => Timestamp { secs: 0, nanos: 0 },
    }
}

/// The current time, but no earlier than `floor`: the clock may step back between two readings,
/// and times recorded for one job must not run backwards.
pub(crate) fn now_not_before(floor: Timestamp) -> (t: Timestamp)
    ensures
        ts_le(floor, t),
        valid_instant(floor) ==> valid_instant(t),
{
    match clock_now() {
        Some(now) => later_of(now, floor),
        None => floor,
    }
}

/// The millisecond count a version 7 UUID records for an instant: the seconds times one thousand
/// plus the whole milliseconds of the nanoseconds, saturating at `u64::MAX`.
pub open spec fn v7_millis(secs: u64, nanos: u32) -> nat {
    let ms = if secs * 1000 > u64::MAX { u64::MAX as int } else { secs * 1000 };
    let total = ms + nanos / 1_000_000;
    if total > u64::MAX { u64::MAX as nat } else { total as nat }
}

/// Digit `k` of `v` in base 16, counting from the least significant digit as 0.
pub open spec fn nibble(v: nat, k: nat) -> nat
    decreases k,
{
    if k == 0 {
        v % 16
    } else {
        nibble(v / 16, (k - 1) as nat)
    }
}

/// The lower-case hexadecimal digit for `d`, where `d < 16`.
pub open spec fn hex_digit(d: nat) -> char {
    if d < 10 {
        (('0' as nat) + d) as char
    } else {
        (('a' as nat) + d - 10) as char
    }
}

/// Where the `i`-th of the twelve leading hexadecimal digits stands in the hyphenated form.
pub open spec fn time_digit_pos(i: int) -> int {
    if i < 8 {
        i
    } else {
        i + 1
    }
}

/// Whether a text has the shape of a hyphenated UUID: 36 characters with hyphens at positions
/// 8, 13, 18 and 23.
pub open spec fn uuid_shaped(s: Seq<char>) -> bool {
    &&& s.len() == 36
    &&& s[8] == '-'
    &&& s[13] == '-'
    &&& s[18] == '-'
    &&& s[23] == '-'
}

/// Whether a text is the hyphenated form of a version 7 UUID that records `millis`: its first
/// twelve hexadecimal digits are the low 48 bits of `millis`, most significant first, and its
/// version digit is 7.
pub open spec fn uuid_v7_text(s: Seq<char>, millis: nat) -> bool {
    &&& uuid_shaped(s)
    &&& s[14] == '7'
    &&& forall|i: int|
        0 <= i < 12 ==> #[trigger] s[time_digit_pos(i)] == hex_digit(
            nibble(millis % 0x1_0000_0000_0000, (11 - i) as nat),
        )
}

/// Makes a version 7 UUID for the given instant with `uuid::Uuid::new_v7` (from
/// `uuid::Timestamp::from_unix` with `uuid::NoContext`) and renders it with its `Display` impl.
///
/// Trusted: `new_v7` puts the low 48 bits of the instant's milliseconds (as `v7_millis` computes
/// them) in the first six bytes and the version 7 in the next nibble, and `Display` writes the
/// lower-case hyphenated form. The remaining 74 bits are random, so nothing is stated of them.
/// `new_v7` draws them from the operating system's random source and panics only if that source
/// fails, which no argument can rule out.
#[verifier::external_body]
fn uuid_v7_string(secs: u64, nanos: u32) -> (res: String)
    ensures
        uuid_v7_text(res@, v7_millis(secs, nanos)),
{
    uuid::Uuid::new_v7(uuid::Timestamp::from_unix(uuid::NoContext, secs, nanos)).to_string()
}

/// The text of a fresh, time-ordered id: a version 7 UUID for the current time.
pub(crate) fn new_v7_id_text() -> (res: String)
    ensures
        exists|t: Timestamp| #[trigger] valid_instant(t) && uuid_v7_text(res@, v7_millis(t.secs as u64, t.nanos)),
{
    let t = now_or_epoch();
    uuid_v7_string(t.secs as u64, t.nanos)
}

} // verus!
