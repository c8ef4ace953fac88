//! Fixed-point plotting and simulation core.
//!
//! Samples are held in milli-units: an `i64` value of `1000` stands for one
//! physical unit (one metre, one second). The data structures record
//! fixed-capacity, append-only series of such samples, scan them for extrema,
//! derive whole-unit axis ranges for plotting, and drive a one-dimensional
//! dead-reckoning simulation over caller-supplied noise samples.
#![allow(unused_imports)]
use vstd::prelude::*;

pub mod points;
pub mod render;
pub mod series;
pub mod sim;

verus! {

/// Milli-units per whole unit: the fixed-point scale of every sample.
pub const SCALE: i64 = 1000;

/// Largest accepted control cycle, in milli-seconds.
pub const CYCLE_MAX: i64 = 1_000_000;

/// Largest accepted series capacity (number of slots).
pub const LEN_MAX: usize = 100_000;

/// Largest accepted magnitude for a speed or a noise sample, in milli-units.
pub const SPEED_MAX: i64 = 1_000_000;

/// Largest sample magnitude the scans and range computations accept;
/// keeps every difference and sum well inside `i64`.
pub const VAL_LIMIT: i64 = 0x1000_0000_0000_0000;

/// Least element of a non-empty sequence of integers.
pub open spec fn seq_min(s: Seq<int>) -> int
    recommends
        s.len() >= 1,
    decreases s.len(),
{
    if s.len() <= 1 {
        s[0]
    } else {
        let m = seq_min(s.drop_last());
        if s.last() < m {
            s.last()
        } else {
            m
        }
    }
}

/// Greatest element of a non-empty sequence of integers.
pub open spec fn seq_max(s: Seq<int>) -> int
    recommends
        s.len() >= 1,
    decreases s.len(),
{
    if s.len() <= 1 {
        s[0]
    } else {
        let m = seq_max(s.drop_last());
        if s.last() > m {
            s.last()
        } else {
            m
        }
    }
}

/// Absolute value of a mathematical integer.
pub open spec fn abs_val(x: int) -> int {
    if x < 0 {
        -x
    } else {
        x
    }
}

} // verus!
