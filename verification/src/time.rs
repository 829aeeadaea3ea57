//! The wall clock, behind trusted wrappers: the verified cycle logic takes
//! the values these return as plain arguments.
//!
//! All three rely on chrono's `now`, which itself panics when the host
//! clock sits before the Unix epoch or absurdly far past it; that is a
//! machine limit no argument can exclude.

use vstd::prelude::*;
use crate::config::Weekday;
use chrono::{Datelike, Timelike};

verus! {

/// Relies on chrono's `Utc::now` and `DateTime::timestamp`: the current time
/// as Unix seconds. Nothing can be promised of the clock's value.
#[verifier::external_body]
pub fn now_timestamp() -> i64 {
    chrono::Utc::now().timestamp()
}

/// Relies on chrono's `Timelike::hour`, documented to return 0 to 23.
#[verifier::external_body]
pub fn current_hour() -> (h: u8)
    ensures
        h < 24,
{
    chrono::Utc::now().hour() as u8
}

/// Relies on chrono's `Datelike::weekday`; maps each of the seven variants
/// to this crate's day of the week.
#[verifier::external_body]
pub fn current_weekday() -> Weekday {
    match chrono::Local::now().weekday() {
        chrono::Weekday::Mon => Weekday::Mon,
        chrono::Weekday::Tue => Weekday::Tue,
        chrono::Weekday::Wed => Weekday::Wed,
        chrono::Weekday::Thu => Weekday::Thu,
        chrono::Weekday::Fri => Weekday::Fri,
        chrono::Weekday::Sat => Weekday::Sat,
        chrono::Weekday::Sun => Weekday::Sun,
    }
}

} // verus!
