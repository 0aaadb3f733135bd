//! Timestamps of the forecast series, read through chrono.

use chrono::{Datelike, Timelike};
use vstd::prelude::*;

verus! {

/// Year, month, day and hour that chrono's `NaiveDateTime::parse_from_str`
/// reads from a text in the format `%Y-%m-%dT%H:%M`, or `None` where it
/// refuses the text.
pub uninterp spec fn naive_stamp(s: Seq<char>) -> Option<(int, int, int, int)>;

/// Relies on chrono's `NaiveDateTime::parse_from_str(s, "%Y-%m-%dT%H:%M")`
/// and on its `year`, `month`, `day` and `hour` accessors: the result depends
/// on the text alone.
#[verifier::external_body]
pub(crate) fn parse_stamp(s: &str) -> (r: Option<(i32, u32, u32, u32)>)
    ensures
        naive_stamp(s@) == match r {
            Some(t) => Some((t.0 as int, t.1 as int, t.2 as int, t.3 as int)),
            None => None,
        },
{
    chrono::NaiveDateTime::parse_from_str(s, "%Y-%m-%dT%H:%M").ok().map(
        |t| (t.year(), t.month(), t.day(), t.hour()),
    )
}

} // verus!
