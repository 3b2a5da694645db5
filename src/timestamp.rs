use chrono::{Datelike, Timelike};
use vstd::prelude::*;

verus! {

/// A local wall-clock instant, held as its calendar fields and the offset of
/// the local zone from UTC in seconds.
#[derive(Clone, Copy, Debug, PartialEq, Eq)]
pub struct Timestamp {
    pub year: i32,
    pub month: u32,
    pub day: u32,
    pub hour: u32,
    pub minute: u32,
    pub second: u32,
    /// Nanoseconds past the second; from one billion on, a leap second.
    pub nanosecond: u32,
    pub offset_seconds: i32,
}

impl Timestamp {
    /// Every field lies in the range that a calendar date and a clock time allow.
    pub open spec fn wf(&self) -> bool {
        &&& 1 <= self.month <= 12
        &&& 1 <= self.day <= 31
        &&& self.hour < 24
        &&& self.minute < 60
        &&& self.second < 60
        &&& self.nanosecond < 2_000_000_000
        &&& -86_400 < self.offset_seconds < 86_400
    }
}

/// Relies on chrono's `From<SystemTime> for DateTime<Local>`, applied to
/// `SystemTime::now()`, and on its `Datelike` / `Timelike` accessors and
/// `FixedOffset::local_minus_utc`, whose documented ranges make the result well
/// formed. A clock set before 1970 is converted, not refused; chrono panics only
/// on broken local zone data or on an instant outside the range of its dates.
/// Which instant comes back is the clock's to say.
#[verifier::external_body]
pub(crate) fn local_now() -> (r: Timestamp)
    ensures
        r.wf(),
{
    let now = chrono::DateTime::<chrono::Local>::from(std::time::SystemTime::now());
    Timestamp {
        year: now.year(),
        month: now.month(),
        day: now.day(),
        hour: now.hour(),
        minute: now.minute(),
        second: now.second(),
        nanosecond: now.nanosecond(),
        offset_seconds: now.offset().local_minus_utc(),
    }
}

} // verus!
