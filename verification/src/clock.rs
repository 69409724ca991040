//! The time of day, as text. Nothing is known of these texts beforehand:
//! what is done with one is decided for every text that could come back.

use vstd::prelude::*;

verus! {

/// The present moment in UTC, in the notation of RFC 3339.
///
/// Calls `chrono::Utc::now` and `DateTime::to_rfc3339`. The result depends
/// on the clock, so nothing is claimed of it.
#[verifier::external_body]
pub(crate) fn utc_timestamp() -> String {
    chrono::Utc::now().to_rfc3339()
}

/// The local date of today, as `YYYY.MM.DD`.
///
/// Calls `chrono::Local::now` and `DateTime::format`. The result depends on
/// the clock and the time zone, so nothing is claimed of it.
#[verifier::external_body]
pub(crate) fn local_date_stamp() -> String {
    chrono::Local::now().format("%Y.%m.%d").to_string()
}

/// The present moment in UTC, as `YYYYMMDDTHHMMSSZ`.
///
/// Calls `chrono::Utc::now` and `DateTime::format`. The result depends on
/// the clock, so nothing is claimed of it.
#[verifier::external_body]
pub(crate) fn utc_file_stamp() -> String {
    chrono::Utc::now().format("%Y%m%dT%H%M%SZ").to_string()
}

} // verus!
