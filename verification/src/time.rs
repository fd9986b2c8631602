//! Monotonic time. Instants are nanoseconds on the host's monotonic clock.

use vstd::prelude::*;

verus! {

pub const NANOS_PER_SEC: u64 = 1_000_000_000;

/// Nanoseconds from `then` to `now`; 0 where `then` is later.
pub open spec fn elapsed(now: u64, then: u64) -> int {
    if now >= then {
        now - then
    } else {
        0
    }
}

/// Nanoseconds from `then` to `now`; 0 where `then` is later.
pub fn since(now: u64, then: u64) -> (r: u64)
    ensures
        r == elapsed(now, then),
{
    if now >= then {
        now - then
    } else {
        0
    }
}

/// True when more than `secs` seconds lie between `then` and `now`.
pub fn is_over(now: u64, then: u64, secs: u64) -> (r: bool)
    ensures
        r <==> elapsed(now, then) > secs * NANOS_PER_SEC,
{
    assert(secs * NANOS_PER_SEC <= u128::MAX) by (nonlinear_arith)
        requires
            secs <= u64::MAX,
            NANOS_PER_SEC == 1_000_000_000,
    ;
    since(now, then) as u128 > secs as u128 * NANOS_PER_SEC as u128
}

} // verus!
