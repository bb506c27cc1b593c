use crate::state::text_view;
use time::format_description::well_known::Rfc3339;
use time::OffsetDateTime;
use vstd::prelude::*;

verus! {

/// What the `time` crate writes for the moment `secs` seconds after the Unix epoch
/// in UTC, in the notation of RFC 3339; `None` where it writes nothing.
pub uninterp spec fn rfc3339_text(secs: i64) -> Option<Seq<char>>;

/// Calls `time::OffsetDateTime::from_unix_timestamp` on `secs` and then
/// `OffsetDateTime::format` with `time::format_description::well_known::Rfc3339`
/// on what it returns. The first refuses moments outside the dates that the crate
/// can hold, the second years outside 0 to 9999; either refusal gives `None`.
///
/// Not proved: that the text depends on `secs` alone. Both calls work on their
/// argument only, and the moment is taken in UTC, so no clock, zone or locale has
/// a part in it. Nothing is claimed of which text comes out for which `secs`.
#[verifier::external_body]
fn rfc3339(secs: i64) -> (text: Option<String>)
    ensures
        text_view(text) == rfc3339_text(secs),
{
    match OffsetDateTime::from_unix_timestamp(secs) {
        Ok(moment) => moment.format(&Rfc3339).ok(),
        Err(_) => None,
    }
}

/// The timestamp of the moment `secs` seconds after the Unix epoch. There is none
/// where `secs` does not fit a signed 64-bit count, or the `time` crate gives none.
pub open spec fn timestamp(secs: int) -> Option<Seq<char>> {
    if 0 <= secs <= i64::MAX {
        rfc3339_text(secs as i64)
    } else {
        None
    }
}

/// The start and end timestamps of a poll created at `now` (seconds after the
/// Unix epoch) to last `duration` seconds. The end is the timestamp of
/// `now + duration`; without a duration there is no end. `None` where a timestamp
/// that is needed does not exist.
pub open spec fn poll_times(now: u64, duration: Option<u64>) -> Option<
    (Seq<char>, Option<Seq<char>>),
> {
    match (timestamp(now as int), duration) {
        (None, _) => None,
        (Some(start), None) => Some((start, None)),
        (Some(start), Some(lasts)) => match timestamp(now + lasts) {
            None => None,
            Some(end) => Some((start, Some(end))),
        },
    }
}

/// The characters of a pair of start and end timestamps.
pub open spec fn times_view(times: Option<(String, Option<String>)>) -> Option<
    (Seq<char>, Option<Seq<char>>),
> {
    match times {
        Some((start, end)) => Some((start@, text_view(end))),
        None => None,
    }
}

/// Writes the moment `secs` seconds after the Unix epoch as a timestamp.
pub fn timestamp_at(secs: u64) -> (text: Option<String>)
    ensures
        text_view(text) == timestamp(secs as int),
{
    if secs > i64::MAX as u64 {
        None
    } else {
        rfc3339(secs as i64)
    }
}

/// Writes the start and end timestamps of a poll created at `now` to last
/// `duration` seconds.
pub fn timestamps(now: u64, duration: Option<u64>) -> (times: Option<(String, Option<String>)>)
    ensures
        times_view(times) == poll_times(now, duration),
{
    let start = match timestamp_at(now) {
        Some(text) => text,
        None => { return None; },
    };
    match duration {
        None => Some((start, None)),
        Some(lasts) => match now.checked_add(lasts) {
            None => None,
            Some(until) => match timestamp_at(until) {
                Some(end) => Some((start, Some(end))),
                None => None,
            },
        },
    }
}

} // verus!
