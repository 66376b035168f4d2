//! The wall clock.

use vstd::prelude::*;
use std::time::SystemTime;
use chrono::{DateTime, Utc};
use crate::reading::Timestamp;

verus! {

/// Reads the system clock with `SystemTime::now`, has chrono make a
/// `DateTime<Utc>` of it through its `From<SystemTime>` conversion, and hands
/// the instant on as the seconds and nanoseconds that `DateTime::timestamp`
/// and `DateTime::timestamp_subsec_nanos` give for it. Nothing is claimed of
/// the instant: it is whatever the system clock says. A clock that stands
/// before the Unix epoch is no failure: the conversion counts back from the
/// epoch, and the seconds come out negative.
#[verifier::external_body]
pub(crate) fn utc_now() -> (now: Timestamp) {
    let now: DateTime<Utc> = DateTime::<Utc>::from(SystemTime::now());
    Timestamp { secs: now.timestamp(), nanos: now.timestamp_subsec_nanos() }
}

} // verus!
