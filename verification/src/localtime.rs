//! Conversion of parsed UTC instants to the machine's local time, for
//! display. The time-zone lookup itself can only come from the outside
//! clock library; everything around it is verified.

use crate::timestamp;
use vstd::prelude::*;

use chrono::Datelike;
use chrono::Timelike;

verus! {

/// A local civil date and time, to minute precision: what one displayed
/// date line of the report carries.
#[derive(Clone, Copy, Debug, PartialEq, Eq, Structural)]
pub struct LocalFields {
    pub year: i32,
    pub month: u32,
    pub day: u32,
    pub hour: u32,
    pub minute: u32,
}

impl LocalFields {
    /// Calendar fields in their displayable ranges.
    pub open spec fn wf(self) -> bool {
        &&& 1 <= self.month <= 12
        &&& 1 <= self.day <= 31
        &&& self.hour <= 23
        &&& self.minute <= 59
    }
}

/// Relies on chrono: `DateTime::<Utc>::from_timestamp_millis` returns `Some`
/// for any instant within chrono's supported range of about ±262,000 years,
/// far beyond the bound required here; `with_timezone(&Local)` re-expresses
/// the same instant in the machine's time zone; and the `Datelike` /
/// `Timelike` accessors return a month in 1..=12, a day in 1..=31, an hour
/// in 0..=23 and a minute in 0..=59. The value depends on the machine's
/// time-zone database, so nothing beyond those ranges is stated.
#[verifier::external_body]
fn local_fields_of_epoch_millis(ms: i64) -> (r: LocalFields)
    requires
        -75_000_000_000_000 <= ms <= 254_000_000_000_000,
    ensures
        r.wf(),
{
    let utc: chrono::DateTime<chrono::Utc> = chrono::DateTime::from_timestamp_millis(
        ms,
    ).unwrap();
    let local = utc.with_timezone(&chrono::Local);
    LocalFields {
        year: local.year(),
        month: local.month(),
        day: local.day(),
        hour: local.hour(),
        minute: local.minute(),
    }
}

/// The display decision for one raw timestamp: the local rendering of the
/// instant when the text parses, nothing when it does not (the caller then
/// falls back to the raw text).
pub fn local_display_of(raw: &str) -> (r: Option<LocalFields>)
    ensures
        r is Some <==> timestamp::parse_accepts(raw@),
        r matches Some(f) ==> f.wf(),
{
    match timestamp::parse(raw) {
        Ok(t) => Some(local_fields_of_epoch_millis(t.epoch_millis())),
        Err(_) => None,
    }
}

} // verus!
