//! Time stamps: the system clock read as seconds since the Unix epoch, and
//! their RFC 3339 form as produced by `chrono`.

use vstd::prelude::*;
use crate::error::Error;
use crate::image::opt_view;

verus! {

/// The system clock (`SystemTime::now().duration_since(UNIX_EPOCH)`), as
/// whole seconds and nanoseconds after the epoch (`Ok`) or before it
/// (`Err`, the time before the epoch as `SystemTimeError::duration` gives
/// it). The contract only says that the nanoseconds are below one billion,
/// as `Duration::subsec_nanos` documents; the reading depends on the clock.
#[verifier::external_body]
fn read_system_clock() -> (r: Result<(u64, u32), (u64, u32)>)
    ensures
        match r {
            Ok((_, n)) => n < 1_000_000_000,
            Err((_, n)) => n < 1_000_000_000,
        },
{
    match std::time::SystemTime::now().duration_since(std::time::UNIX_EPOCH) {
        Ok(after) => Ok((after.as_secs(), after.subsec_nanos())),
        Err(before) => Err((before.duration().as_secs(), before.duration().subsec_nanos())),
    }
}

/// The whole seconds since the epoch of a clock reading, rounded down
/// (a time before the epoch counts as negative).
pub open spec fn reading_seconds(reading: Result<(u64, u32), (u64, u32)>) -> int {
    match reading {
        Ok((s, _)) => s as int,
        Err((s, n)) => if n > 0 {
            -(s as int) - 1
        } else {
            -(s as int)
        },
    }
}

/// The RFC 3339 form, in UTC with whole seconds and a `Z` suffix, of a
/// number of seconds since the Unix epoch; `None` when chrono cannot
/// represent that instant.
pub uninterp spec fn rfc3339_utc(secs: int) -> Option<Seq<char>>;

/// `chrono::DateTime::<Utc>::from_timestamp(secs, 0)` formatted by
/// `DateTime::to_rfc3339_opts(SecondsFormat::Secs, true)`. The contract only
/// says that the result is `rfc3339_utc` of the argument.
#[verifier::external_body]
pub(crate) fn rfc3339_utc_from_unix(secs: i64) -> (r: Option<String>)
    ensures
        opt_view(r) == rfc3339_utc(secs as int),
{
    match chrono::DateTime::<chrono::Utc>::from_timestamp(secs, 0) {
        Some(t) => Some(t.to_rfc3339_opts(chrono::SecondsFormat::Secs, true)),
        None => None,
    }
}

/// The RFC 3339 text of a clock reading: its seconds rounded down, in UTC;
/// `None` when they do not fit in `i64` or chrono cannot represent them.
pub open spec fn reading_text(reading: Result<(u64, u32), (u64, u32)>) -> Option<Seq<char>> {
    let s = reading_seconds(reading);
    if i64::MIN <= s <= i64::MAX {
        rfc3339_utc(s)
    } else {
        None
    }
}

/// The RFC 3339 text of a clock reading (see `reading_text`).
pub fn rfc3339_of_reading(reading: Result<(u64, u32), (u64, u32)>) -> (r: Option<String>)
    ensures
        opt_view(r) == reading_text(reading),
{
    let secs: i128 = match reading {
        Ok((s, _)) => s as i128,
        Err((s, n)) => if n > 0 {
            -(s as i128) - 1
        } else {
            -(s as i128)
        },
    };
    if secs < i64::MIN as i128 || secs > i64::MAX as i128 {
        return None;
    }
    rfc3339_utc_from_unix(secs as i64)
}

/// Text the clock can give: the RFC 3339 form of some second.
pub open spec fn clock_text(t: Seq<char>) -> bool {
    exists|s: int| rfc3339_utc(s) == Some(t)
}

/// The message of the error for a clock that cannot be read as a date.
pub open spec fn clock_message() -> Seq<char> {
    "the system clock cannot be read as a date"@
}

/// The current time in UTC as RFC 3339 text with whole seconds and a `Z`
/// suffix; an `Io` error when the clock reads a time chrono cannot
/// represent. Which time it is depends on the clock; the text is always
/// `rfc3339_utc` of some number of seconds (`clock_text`).
pub fn utc_now() -> (r: Result<String, Error>)
    ensures
        match r {
            Ok(t) => clock_text(t@),
            Err(e) => e matches Error::Io(m) && m@ == clock_message(),
        },
{
    let reading = read_system_clock();
    match rfc3339_of_reading(reading) {
        Some(t) => Ok(t),
        None => Err(Error::Io(crate::text::string_of(&crate::text::chars_of("the system clock cannot be read as a date")))),
    }
}

/// The strftime pattern of export folder names: date and time to the second.
pub open spec fn export_stamp_pattern() -> Seq<char> {
    "%Y%m%d-%H%M%S"@
}

/// The strftime pattern of backup names: date and time to the millisecond.
pub open spec fn backup_stamp_pattern() -> Seq<char> {
    "%Y%m%d-%H%M%S%.3f"@
}

/// The local-time pattern export folder names are stamped with.
pub fn export_stamp_format() -> (r: &'static str)
    ensures
        r@ == export_stamp_pattern(),
{
    "%Y%m%d-%H%M%S"
}

/// The local-time pattern backups of a project file are stamped with.
pub fn backup_stamp_format() -> (r: &'static str)
    ensures
        r@ == backup_stamp_pattern(),
{
    "%Y%m%d-%H%M%S%.3f"
}

} // verus!
