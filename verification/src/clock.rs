//! The wall clock, reached through chrono. The current time is outside
//! state, so nothing is promised about these results; every contract that
//! mentions a timestamp is stated relative to the strings these return.

use vstd::prelude::*;

verus! {

/// Relies on chrono::Local::now and chrono's strftime-style formatting:
/// reads the clock once and renders that single instant twice, as
/// `YYYY-MM-DD_HH-MM-SS` (embedded in file names) and as ISO-8601 with
/// milliseconds (written in CSV rows).
#[verifier::external_body]
pub(crate) fn now_stamps() -> (r: (String, String)) {
    let now = chrono::Local::now();
    (
        now.format("%Y-%m-%d_%H-%M-%S").to_string(),
        now.format("%Y-%m-%dT%H:%M:%S%.3f").to_string(),
    )
}

/// Relies on chrono::Local::now and chrono's strftime-style formatting:
/// the current instant as `YYYY-MM-DD_HH-MM-SS`, for a log file name.
#[verifier::external_body]
pub(crate) fn now_compact() -> String {
    chrono::Local::now().format("%Y-%m-%d_%H-%M-%S").to_string()
}

/// Relies on chrono::Local::now and chrono's strftime-style formatting:
/// the current instant as ISO-8601 with milliseconds, for CSV rows.
#[verifier::external_body]
pub(crate) fn now_iso() -> String {
    chrono::Local::now().format("%Y-%m-%dT%H:%M:%S%.3f").to_string()
}

} // verus!
