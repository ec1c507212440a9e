//! Access to the system clock and to other sources whose results depend on
//! the moment of the call.  Nothing is promised about the values read.

use vstd::prelude::*;

verus! {

/// Declares `std::time::SystemTime`, a reading of the system clock.
#[verifier::external_type_specification]
#[verifier::external_body]
pub struct ExSystemTime(std::time::SystemTime);

/// `std::time::SystemTime::now`: the current reading of the system clock.
/// Nothing is claimed about it.
#[verifier::external_body]
fn system_time_now() -> std::time::SystemTime {
    std::time::SystemTime::now()
}

/// `SystemTime::duration_since(UNIX_EPOCH)`: the time from the UNIX epoch
/// to `t`, `None` when `t` is earlier than the epoch.  Nothing is claimed
/// about it.
#[verifier::external_body]
fn since_unix_epoch(t: &std::time::SystemTime) -> Option<std::time::Duration> {
    match t.duration_since(std::time::UNIX_EPOCH) {
        Ok(d) => Some(d),
        Err(_) => None,
    }
}

/// `Duration::as_nanos`: the whole nanoseconds of `d`.  Nothing is claimed
/// about the number.
#[verifier::external_body]
fn duration_nanos(d: &std::time::Duration) -> u128 {
    d.as_nanos()
}

/// `Duration::as_millis`: the whole milliseconds of `d`.  Nothing is
/// claimed about the number.
#[verifier::external_body]
fn duration_millis(d: &std::time::Duration) -> u128 {
    d.as_millis()
}

/// Nanoseconds since the UNIX epoch on the system clock, truncated to 64
/// bits; 0 when the clock is set before the epoch.
fn read_system_nanos() -> u64 {
    let t = system_time_now();
    match since_unix_epoch(&t) {
        Some(d) => {
            let n = duration_nanos(&d);
            n as u64
        },
        None => 0,
    }
}

/// `t` is a value the system clock gave: a reading of [`now_nanos`].
/// Nothing else is known of such a value, but no other value is one.
pub closed spec fn clock_reading(t: u64) -> bool {
    call_ensures(read_system_nanos, (), t)
}

/// Nanoseconds since the UNIX epoch on the system clock, truncated to 64
/// bits; 0 when the clock is set before the epoch.  The result is a clock
/// reading.
pub fn now_nanos() -> (t: u64)
    ensures
        clock_reading(t),
{
    let read = read_system_nanos;
    read()
}

/// Milliseconds since the UNIX epoch on the system clock, truncated to 64
/// bits; 0 when the clock is set before the epoch.
pub(crate) fn now_millis() -> u64 {
    let t = system_time_now();
    match since_unix_epoch(&t) {
        Some(d) => {
            let n = duration_millis(&d);
            n as u64
        },
        None => 0,
    }
}

/// The current UTC time in RFC 3339 form, from `chrono::Utc::now` and
/// `DateTime::to_rfc3339`.  Nothing is claimed about the text.  The date
/// value is read and turned into text in one wrapper: `chrono::DateTime`
/// cannot be declared to Verus (its time-zone parameter is bound by
/// chrono's `TimeZone` trait), so it cannot leave the wrapper.
#[verifier::external_body]
pub(crate) fn utc_now_rfc3339() -> String {
    chrono::Utc::now().to_rfc3339()
}

/// The UTC time `ago_nanos` nanoseconds before now, in RFC 3339 form, from
/// `chrono::Duration::from_std` (a zero duration where chrono cannot hold
/// it), `chrono::Utc::now`, `DateTime::checked_sub_signed` and
/// `DateTime::to_rfc3339`; the empty string when the subtraction is out of
/// chrono's range.  Nothing is claimed about the text.  As above, the
/// chrono values cannot leave the wrapper.
#[verifier::external_body]
pub(crate) fn utc_rfc3339_before_now(ago_nanos: u64) -> String {
    let ago = chrono::Duration::from_std(std::time::Duration::from_nanos(ago_nanos)).unwrap_or_default();
    match chrono::Utc::now().checked_sub_signed(ago) {
        Some(t) => t.to_rfc3339(),
        None => String::new(),
    }
}

/// A random `u64` from `rand::random`.  Nothing is claimed about the value.
#[verifier::external_body]
pub(crate) fn random_u64() -> u64 {
    rand::random::<u64>()
}

} // verus!
