//! The time of a file's last change as text.
//!
//! The calendar is the `chrono` crate's. What this module takes from it is
//! named here and believed, not proved.

use vstd::prelude::*;
use vstd::string::*;

verus! {

/// The text of the moment so many whole seconds after the start of 1970:
/// what `chrono::DateTime::to_rfc3339` prints for the moment that
/// `chrono::DateTime::from_timestamp` gives, where the calendar reaches it.
pub uninterp spec fn utc_rfc3339(seconds: i64) -> Option<Seq<char>>;

/// Calls `chrono::DateTime::from_timestamp` with no nanoseconds and prints
/// the moment, which is in universal time, with
/// `chrono::DateTime::to_rfc3339`.
///
/// The contract only gives the outcome its name, [`utc_rfc3339`].
#[verifier::external_body]
fn rfc3339_at(seconds: i64) -> (text: Option<String>)
    ensures
        text matches Some(t) ==> utc_rfc3339(seconds) == Some(t@),
        text is None ==> utc_rfc3339(seconds) is None,
{
    chrono::DateTime::from_timestamp(seconds, 0).map(|moment| moment.to_rfc3339())
}

/// The text for a time of last change: the moment so many seconds after the
/// start of 1970 in the form of RFC 3339, and nothing where the time is
/// unknown or outside the calendar.
pub open spec fn modified_text(seconds: Option<u64>) -> Seq<char> {
    match seconds {
        Some(s) => match utc_rfc3339(s as i64) {
            Some(text) => text,
            None => Seq::empty(),
        },
        None => Seq::empty(),
    }
}

/// The time of a file's last change as text, from the whole seconds
/// between the start of 1970 and the change.
///
/// An unknown time, and one that the calendar does not reach, is the empty
/// text.
pub fn modified_time_text(seconds: Option<u64>) -> (text: String)
    ensures
        text@ == modified_text(seconds),
{
    match seconds {
        Some(s) => match rfc3339_at(#[verifier::truncate] (s as i64)) {
            Some(text) => text,
            None => String::new(),
        },
        None => String::new(),
    }
}

} // verus!
