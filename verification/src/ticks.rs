//! Wraparound-safe arithmetic on 32-bit hardware tick counters.
//!
//! A free-running counter wraps, so "A is before B" cannot be the naive
//! `A < B`: it is defined as `B - A`, interpreted as a signed delta of the
//! same bit width, being positive.  Equivalently, the wrapped difference
//! `B - A` lies strictly below half the counter's range.

use vstd::prelude::*;

verus! {

/// Half the range of a 32-bit counter.  A wrapped delta below this bound is
/// treated as "forward in time"; at or above it, as "backward".
pub const HALF_RANGE: u32 = 0x8000_0000;

/// One past the largest 32-bit tick value, as a plain integer.
pub const TICK_RANGE: u64 = 0x1_0000_0000;

/// `a + d` modulo the counter range.
pub open spec fn spec_wrapping_add(a: u32, d: u32) -> u32 {
    if a + d <= u32::MAX {
        (a + d) as u32
    } else {
        (a + d - TICK_RANGE) as u32
    }
}

/// `a - b` modulo the counter range.
pub open spec fn spec_wrapping_sub(a: u32, b: u32) -> u32 {
    if a >= b {
        (a - b) as u32
    } else {
        (a - b + TICK_RANGE) as u32
    }
}

/// Tick `a` is strictly before tick `b`: the wrapped delta `b - a` is a
/// positive signed quantity of the counter's width.
pub open spec fn tick_before(a: u32, b: u32) -> bool {
    a != b && spec_wrapping_sub(b, a) < HALF_RANGE
}

/// Deadline `d` has been reached at time `now`: `d` is at or before `now`
/// under the wraparound order.  A deadline "in the past" still counts.
pub open spec fn tick_reached(now: u32, d: u32) -> bool {
    spec_wrapping_sub(now, d) < HALF_RANGE
}

pub fn wrapping_add(a: u32, d: u32) -> (r: u32)
    ensures
        r == spec_wrapping_add(a, d),
{
    if d <= u32::MAX - a {
        a + d
    } else {
        d - (u32::MAX - a) - 1
    }
}

pub fn wrapping_sub(a: u32, b: u32) -> (r: u32)
    ensures
        r == spec_wrapping_sub(a, b),
{
    if a >= b {
        a - b
    } else {
        a + (u32::MAX - b) + 1
    }
}

pub fn is_before(a: u32, b: u32) -> (r: bool)
    ensures
        r == tick_before(a, b),
{
    a != b && wrapping_sub(b, a) < HALF_RANGE
}

pub fn has_reached(now: u32, d: u32) -> (r: bool)
    ensures
        r == tick_reached(now, d),
{
    wrapping_sub(now, d) < HALF_RANGE
}

/// Advancing a counter by any positive delta below half its range lands
/// strictly in the future.
pub proof fn lemma_before_after_add(a: u32, d: u32)
    requires
        0 < d < HALF_RANGE,
    ensures
        tick_before(a, spec_wrapping_add(a, d)),
{
    assert(spec_wrapping_sub(spec_wrapping_add(a, d), a) == d);
}

/// The wraparound order is antisymmetric: two distinct ticks are never each
/// strictly before the other.
pub proof fn lemma_before_antisymmetric(a: u32, b: u32)
    requires
        tick_before(a, b),
    ensures
        !tick_before(b, a),
{
    assert(spec_wrapping_sub(b, a) + spec_wrapping_sub(a, b) == TICK_RANGE);
}

/// The wraparound order is transitive as long as the overall span stays
/// within half the counter's range.
pub proof fn lemma_before_transitive(a: u32, b: u32, c: u32)
    requires
        tick_before(a, b),
        tick_before(b, c),
        spec_wrapping_sub(c, a) < HALF_RANGE,
    ensures
        tick_before(a, c),
{
    if a == c {
        lemma_before_antisymmetric(a, b);
    }
    assert(spec_wrapping_sub(c, a) == spec_wrapping_sub(c, b) + spec_wrapping_sub(b, a)
        || spec_wrapping_sub(c, a) + TICK_RANGE == spec_wrapping_sub(c, b) + spec_wrapping_sub(
            b,
            a,
        ));
}

/// A reached deadline stays comparable: reaching is exactly "not strictly
/// before `d`" up to the half-range convention.
pub proof fn lemma_reached_not_before(now: u32, d: u32)
    requires
        tick_reached(now, d),
        now != d,
    ensures
        tick_before(d, now),
{
}

} // verus!
