//! Wall-clock time as whole seconds and milliseconds since the Unix epoch.

use vstd::prelude::*;

verus! {

/// The time since the Unix epoch as (seconds, sub-second nanoseconds), or
/// `None` when the clock is before the epoch (`SystemTime::now().duration_since`).
/// Nothing is claimed of the values: they come from the clock.
#[verifier::external_body]
fn epoch_duration() -> (d: Option<(u64, u32)>)
    ensures
        d matches Some(p) ==> p.1 < 1_000_000_000,
{
    match std::time::SystemTime::now().duration_since(std::time::UNIX_EPOCH) {
        Ok(d) => Some((d.as_secs(), d.subsec_nanos())),
        Err(_) => None,
    }
}

/// Whole milliseconds of a duration, truncated to 64 bits (`as_millis() as u64`).
pub open spec fn millis_u64(secs: u64, nanos: u32) -> u64 {
    ((secs as int * 1000 + nanos as int / 1_000_000) % 0x1_0000_0000_0000_0000) as u64
}

/// Milliseconds of a (seconds, nanoseconds) duration, truncated to 64 bits.
pub fn duration_millis(secs: u64, nanos: u32) -> (ms: u64)
    ensures
        ms == millis_u64(secs, nanos),
{
    let m: u128 = (secs as u128) * 1000 + (nanos as u128) / 1_000_000;
    let r = (m % 0x1_0000_0000_0000_0000u128) as u64;
    r
}

/// Milliseconds since the epoch (0 when the clock reads before it): the
/// whole milliseconds, truncated to 64 bits, of some duration the clock gave.
pub fn now_ms() -> (ms: u64)
    ensures
        ms == 0 || exists|s: u64, n: u32| n < 1_000_000_000 && ms == #[trigger] millis_u64(s, n),
{
    match epoch_duration() {
        Some((s, n)) => {
            let ms = duration_millis(s, n);
            assert(ms == millis_u64(s, n));
            ms
        },
        None => 0,
    }
}

/// Seconds since the epoch (0 when the clock reads before it).
pub fn now_secs() -> (s: u64) {
    match epoch_duration() {
        Some((s, _)) => s,
        None => 0,
    }
}


#[verifier::external_type_specification]
#[verifier::external_body]
pub struct ExSystemTime(std::time::SystemTime);

/// `SystemTime::duration_since(UNIX_EPOCH)` of `t` as (seconds, sub-second
/// nanoseconds), or `None` when `t` is before the epoch. Only the bound on
/// the nanoseconds is claimed.
#[verifier::external_body]
fn since_epoch(t: &std::time::SystemTime) -> (d: Option<(u64, u32)>)
    ensures
        d matches Some(p) ==> p.1 < 1_000_000_000,
{
    match t.duration_since(std::time::UNIX_EPOCH) {
        Ok(d) => Some((d.as_secs(), d.subsec_nanos())),
        Err(_) => None,
    }
}

/// Whole milliseconds from the epoch to `t`, truncated to 64 bits; `None`
/// when `t` is before the epoch.
pub fn system_time_ms(t: std::time::SystemTime) -> (r: Option<u64>)
    ensures
        r matches Some(ms) ==> exists|s: u64, n: u32| n < 1_000_000_000 && ms == #[trigger] millis_u64(s, n),
{
    match since_epoch(&t) {
        Some((s, n)) => {
            let ms = duration_millis(s, n);
            assert(ms == millis_u64(s, n));
            Some(ms)
        },
        None => None,
    }
}

} // verus!
