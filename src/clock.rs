use vstd::prelude::*;

verus! {

/// The wall-clock time of day, as (hour, minute, second), of a count of
/// seconds since the Unix epoch.
pub open spec fn clock_of(secs: nat) -> (nat, nat, nat) {
    ((secs / 3600) % 24, (secs % 3600) / 60, secs % 60)
}

/// Splits seconds since the Unix epoch into hour, minute and second of the day.
pub fn time_of_day(secs: u64) -> (r: (u64, u64, u64))
    ensures
        (r.0 as nat, r.1 as nat, r.2 as nat) == clock_of(secs as nat),
        r.0 < 24,
        r.1 < 60,
        r.2 < 60,
{
    let second = secs % 60;
    let minute = (secs % 3600) / 60;
    let hour = (secs / 3600) % 24;
    (hour, minute, second)
}

/// Relies on `std::time::SystemTime::now`, read as whole seconds since the Unix
/// epoch; `None` where the system clock is set before the epoch.
#[verifier::external_body]
fn unix_seconds() -> (r: Option<u64>) {
    std::time::SystemTime::now().duration_since(std::time::UNIX_EPOCH).ok().map(|d| d.as_secs())
}

/// The current time of day in UTC, as (hour, minute, second). A system clock
/// set before the Unix epoch reads as midnight.
pub fn get_current_time() -> (r: (u64, u64, u64))
    ensures
        exists|secs: nat| (r.0 as nat, r.1 as nat, r.2 as nat) == clock_of(secs),
        r.0 < 24,
        r.1 < 60,
        r.2 < 60,
{
    let secs = match unix_seconds() {
        Some(s) => s,
        None => 0,
    };
    time_of_day(secs)
}

} // verus!
