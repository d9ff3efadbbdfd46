use vstd::prelude::*;

pub mod events;
pub mod plotting;
pub mod progress;
pub mod shutdown;
pub mod summary;
pub mod sync;
pub mod validate;

verus! {

/// An unbounded sum pressed back into `u64`: everything above `u64::MAX`
/// reads as `u64::MAX`.
pub open spec fn sat_cap(x: int) -> u64 {
    if x > u64::MAX {
        u64::MAX
    } else if x < 0 {
        0
    } else {
        x as u64
    }
}

/// Saturating addition on `u64` counters: the accumulators of the summary
/// never wrap, they stop at `u64::MAX`.
pub open spec fn sat_add(a: u64, b: u64) -> u64 {
    sat_cap(a + b)
}

/// Executable saturating addition, proved equal to `sat_add`.
pub fn saturating_add(a: u64, b: u64) -> (r: u64)
    ensures
        r == sat_add(a, b),
{
    if a <= u64::MAX - b {
        a + b
    } else {
        u64::MAX
    }
}

/// Capping twice caps once: pushing a non-negative amount onto an already
/// saturated sum saturates exactly where the unbounded sum would.
pub proof fn lemma_sat_cap_chain(a: int, b: int)
    requires
        a >= 0,
        b >= 0,
    ensures
        sat_cap(sat_cap(a) + b) == sat_cap(a + b),
{
}

/// Saturating multiplication: cumulative plotted bytes are a sector count
/// times a sector size and must not wrap on display.
pub open spec fn sat_mul(a: u64, b: u64) -> u64 {
    sat_cap(a * b)
}

/// Executable saturating multiplication, proved equal to `sat_mul`.
pub fn saturating_mul(a: u64, b: u64) -> (r: u64)
    ensures
        r == sat_mul(a, b),
{
    if b == 0 {
        0
    } else if a <= u64::MAX / b {
        proof {
            assert(a * b <= u64::MAX) by (nonlinear_arith)
                requires
                    b > 0,
                    a <= u64::MAX as int / b as int,
            ;
        }
        a * b
    } else {
        proof {
            assert(a * b > u64::MAX) by (nonlinear_arith)
                requires
                    b > 0,
                    a > u64::MAX as int / b as int,
            ;
        }
        u64::MAX
    }
}

} // verus!
