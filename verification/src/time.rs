//! Instants as plain numbers, and the boundary to `chrono` that reads them
//! from text.

use vstd::prelude::*;

verus! {

/// A point in time: whole seconds since the Unix epoch in UTC, and the
/// nanoseconds into that second. During a leap second `nanos` runs up to
/// 1,999,999,999.
#[derive(Clone, Copy, Debug, PartialEq, Eq, Structural)]
pub struct Timestamp {
    pub seconds: i64,
    pub nanos: u32,
}

impl DeepView for Timestamp {
    type V = Timestamp;

    open spec fn deep_view(&self) -> Timestamp {
        *self
    }
}

/// The instant that `chrono` reads from a date-and-time text, if it reads
/// one.
pub uninterp spec fn instant_of(text: Seq<char>) -> Option<Timestamp>;

/// `str::parse::<chrono::DateTime<chrono::Utc>>`, the relaxed RFC 3339
/// reader. The result is the named instant for this text, given by
/// `DateTime::timestamp` and `DateTime::timestamp_subsec_nanos`.
#[verifier::external_body]
pub(crate) fn read_instant(text: &str) -> (r: Option<Timestamp>)
    ensures
        r == instant_of(text@),
{
    match text.parse::<chrono::DateTime<chrono::Utc>>() {
        Ok(t) => Some(Timestamp { seconds: t.timestamp(), nanos: t.timestamp_subsec_nanos() }),
        Err(_) => None,
    }
}

} // verus!
