//! New identifiers, and times as text.
use chrono::TimeZone;
use vstd::prelude::*;

verus! {

/// A digit of a lower-case hexadecimal number.
pub open spec fn is_hex(c: char) -> bool {
    '0' <= c <= '9' || 'a' <= c <= 'f'
}

/// A random identifier: thirty-two digits in five groups with `-` between them,
/// where the third group begins with `4` and the fourth with `8`, `9`, `a` or
/// `b`.
pub open spec fn is_uuid(s: Seq<char>) -> bool {
    &&& s.len() == 36
    &&& forall|i: int|
        0 <= i < 36 ==> if i == 8 || i == 13 || i == 18 || i == 23 {
            #[trigger] s[i] == '-'
        } else {
            is_hex(s[i])
        }
    &&& s[14] == '4'
    &&& s[19] == '8' || s[19] == '9' || s[19] == 'a' || s[19] == 'b'
}

/// The same, without the `-`.
pub open spec fn is_simple_uuid(s: Seq<char>) -> bool {
    &&& s.len() == 32
    &&& forall|i: int| 0 <= i < 32 ==> is_hex(#[trigger] s[i])
    &&& s[12] == '4'
    &&& s[16] == '8' || s[16] == '9' || s[16] == 'a' || s[16] == 'b'
}

/// Calls `uuid::Uuid::new_v4` and prints the identifier with hyphens.
///
/// Claimed: the shape of the text. Its digits are random, and nothing is claimed
/// of them. `new_v4` panics where the system has no random numbers to give.
#[verifier::external_body]
pub(crate) fn new_id() -> (r: String)
    ensures
        is_uuid(r@),
{
    uuid::Uuid::new_v4().to_string()
}

/// Calls `uuid::Uuid::new_v4` and prints the identifier with `Uuid::simple`.
///
/// Claimed: the shape of the text. Its digits are random, and nothing is claimed
/// of them. `new_v4` panics where the system has no random numbers to give.
#[verifier::external_body]
pub(crate) fn new_simple_id() -> (r: String)
    ensures
        is_simple_uuid(r@),
{
    uuid::Uuid::new_v4().simple().to_string()
}

/// A text that ends with the offset of universal time.
pub open spec fn in_universal_time(s: Seq<char>) -> bool {
    s.len() >= 6 && s.skip(s.len() - 6) == "+00:00"@
}

/// The first second that can be given as a date, counted from 1970.
pub const FIRST_SECOND: i64 = -8_334_601_228_800;

/// The last second that can be given as a date, counted from 1970.
pub const LAST_SECOND: i64 = 8_210_266_876_799;

/// A point in time: seconds since 1970 in universal time, and nanoseconds.
#[derive(Debug, Clone, Copy, PartialEq, Eq, Structural)]
pub struct FileTime {
    pub secs: i64,
    pub nanos: u32,
}

impl FileTime {
    /// The time can be given as a date.
    pub open spec fn has_date(self) -> bool {
        FIRST_SECOND <= self.secs <= LAST_SECOND && self.nanos < 1_000_000_000
    }

    /// Whether the time can be given as a date.
    pub fn is_dated(self) -> (r: bool)
        ensures
            r == self.has_date(),
    {
        FIRST_SECOND <= self.secs && self.secs <= LAST_SECOND && self.nanos < 1_000_000_000
    }
}

/// The nanoseconds from 1970 to a moment that is so many seconds and nanoseconds
/// away from it, before or after.
pub open spec fn nanos_from_epoch(before: bool, secs: u64, nanos: u32) -> int {
    let distance = secs * 1_000_000_000 + nanos;
    if before {
        -distance
    } else {
        distance
    }
}

/// The moment that is so many seconds and nanoseconds away from 1970, before or
/// after. Its seconds are whole ones before the moment. Nothing is given where they
/// are too many.
pub fn time_since_epoch(before: bool, secs: u64, nanos: u32) -> (r: Option<FileTime>)
    ensures
        ({
            let moment = nanos_from_epoch(before, secs, nanos);
            match r {
                Some(time) => time.secs == moment / 1_000_000_000 && time.nanos == moment
                    % 1_000_000_000,
                None => !(i64::MIN <= moment / 1_000_000_000 <= i64::MAX),
            }
        }),
{
    let distance: u128 = secs as u128 * 1_000_000_000 + nanos as u128;
    let whole: i128 = (distance / 1_000_000_000) as i128;
    let rest: u32 = (distance % 1_000_000_000) as u32;
    let (seconds, left): (i128, u32) = if !before {
        (whole, rest)
    } else if rest == 0 {
        (-whole, 0)
    } else {
        (-whole - 1, 1_000_000_000 - rest)
    };
    proof {
        let moment = nanos_from_epoch(before, secs, nanos);
        assert(seconds * 1_000_000_000 + left == moment);
        assert(seconds == moment / 1_000_000_000);
        assert(left == moment % 1_000_000_000);
    }
    if -0x8000_0000_0000_0000 <= seconds && seconds <= 0x7fff_ffff_ffff_ffff {
        Some(FileTime { secs: seconds as i64, nanos: left })
    } else {
        None
    }
}

/// The text that `DateTime::to_rfc3339` gives for a time in universal time.
pub uninterp spec fn rfc3339_text(secs: i64, nanos: u32) -> Seq<char>;

/// The text gives some moment since 1970, in universal time.
pub open spec fn is_moment(s: Seq<char>) -> bool {
    &&& in_universal_time(s)
    &&& exists|time: FileTime|
        0 <= time.secs && time.has_date() && s == #[trigger] rfc3339_text(time.secs, time.nanos)
}

/// Calls `chrono::Utc::now` and prints the time with `DateTime::to_rfc3339`.
///
/// Claimed: the text is that of a moment since 1970, given in universal time. Which
/// moment it is, the clock says. `now` panics where the clock stands before 1970.
#[verifier::external_body]
pub(crate) fn now_text() -> (r: String)
    ensures
        is_moment(r@),
{
    chrono::Utc::now().to_rfc3339()
}

/// Calls `TimeZone::timestamp_opt` of `chrono::Utc` and prints the time with
/// `DateTime::to_rfc3339`.
///
/// Claimed: the text depends on the time alone, and gives it in universal time.
#[verifier::external_body]
pub(crate) fn time_text(time: FileTime) -> (r: String)
    requires
        time.has_date(),
    ensures
        r@ == rfc3339_text(time.secs, time.nanos),
        in_universal_time(r@),
{
    chrono::Utc.timestamp_opt(time.secs, time.nanos).unwrap().to_rfc3339()
}

/// Moments after 1970 are counted forward and those before it backward.
pub proof fn law_moments_are_counted_from_1970(secs: u64, nanos: u32)
    ensures
        nanos_from_epoch(false, secs, nanos) == secs * 1_000_000_000 + nanos,
        nanos_from_epoch(true, secs, nanos) == -nanos_from_epoch(false, secs, nanos),
{
}

/// The times that can be given as a date lie between the first and the last second that
/// can, and have less than a second of nanoseconds.
pub proof fn law_times_with_a_date(time: FileTime)
    ensures
        time.has_date() <==> -8_334_601_228_800 <= time.secs <= 8_210_266_876_799 && time.nanos
            < 1_000_000_000,
{
}

}
