//! The time a file was made, as the search results show it.

use vstd::prelude::*;

verus! {

/// A point in time: seconds since the start of 1970 in UTC, and the
/// nanoseconds into that second.
#[derive(Clone, Copy, Debug, PartialEq, Eq, Structural)]
pub struct Timestamp {
    pub secs: i64,
    pub nanos: u32,
}

/// The RFC 3339 text of a point in time in UTC, or `None` where the
/// calendar does not reach that far or the nanoseconds are out of range.
pub uninterp spec fn rfc3339_utc(secs: int, nanos: int) -> Option<Seq<char>>;

/// Writes a point in time through `chrono::DateTime::from_timestamp` and
/// `DateTime::to_rfc3339`. The first gives no date for a time outside the
/// calendar's range or with too many nanoseconds; the second never fails.
#[verifier::external_body]
fn rfc3339(secs: i64, nanos: u32) -> (text: Option<String>)
    ensures
        match text {
            Some(t) => rfc3339_utc(secs as int, nanos as int) == Some(t@),
            None => rfc3339_utc(secs as int, nanos as int) is None,
        },
{
    match chrono::DateTime::from_timestamp(secs, nanos) {
        Some(date) => Some(date.to_rfc3339()),
        None => None,
    }
}

/// The time that stands for a file's creation: the one the file system
/// recorded, or the present where it recorded none.
pub open spec fn created_or_now(created: Option<Timestamp>, now: Timestamp) -> Timestamp {
    match created {
        Some(at) => at,
        None => now,
    }
}

/// The text of a point in time.
pub open spec fn stamp_text(at: Timestamp) -> Option<Seq<char>> {
    rfc3339_utc(at.secs as int, at.nanos as int)
}

/// The time of a file's creation as text. `created` is what the file system
/// recorded, if anything, and `now` the present, which stands in for it.
/// There is no text, and only then, where the time is one that the calendar
/// cannot show.
pub fn get_created_at(created: Option<Timestamp>, now: Timestamp) -> (text: Option<String>)
    ensures
        match text {
            Some(t) => stamp_text(created_or_now(created, now)) == Some(t@),
            None => stamp_text(created_or_now(created, now)) is None,
        },
{
    let at = match created {
        Some(at) => at,
        None => now,
    };
    rfc3339(at.secs, at.nanos)
}

} // verus!
