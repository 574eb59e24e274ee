//! Counters that wrap around on overflow, as atomic `fetch_add` / `fetch_sub` do.
use vstd::prelude::*;

verus! {

/// `x + y` modulo 2^64.
pub open spec fn wrap_add(x: u64, y: u64) -> u64 {
    if x + y > u64::MAX { (x + y - 0x1_0000_0000_0000_0000) as u64 } else { (x + y) as u64 }
}

/// `g + 1` for a signed gauge, wrapping at the top.
pub open spec fn gauge_inc(g: i64) -> i64 {
    if g == i64::MAX { i64::MIN } else { (g + 1) as i64 }
}

/// `g - 1` for a signed gauge, wrapping at the bottom.
pub open spec fn gauge_dec(g: i64) -> i64 {
    if g == i64::MIN { i64::MAX } else { (g - 1) as i64 }
}

/// Adds with wrap-around.
pub fn add_wrapping(x: u64, y: u64) -> (r: u64)
    ensures
        r == wrap_add(x, y),
{
    if y <= u64::MAX - x {
        x + y
    } else {
        y - (u64::MAX - x) - 1
    }
}

/// Increments a gauge with wrap-around.
pub fn inc_gauge(g: i64) -> (r: i64)
    ensures
        r == gauge_inc(g),
{
    if g == i64::MAX { i64::MIN } else { g + 1 }
}

/// Decrements a gauge with wrap-around.
pub fn dec_gauge(g: i64) -> (r: i64)
    ensures
        r == gauge_dec(g),
{
    if g == i64::MIN { i64::MAX } else { g - 1 }
}

} // verus!
