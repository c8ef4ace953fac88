//! Geometry the renderer needs: whole-unit axis bounds derived from a
//! series' extrema, and the rotating palette index. Drawing itself is the
//! caller's business; these functions pin down the numbers it draws with.
use vstd::prelude::*;
use vstd::arithmetic::div_mod::{lemma_fundamental_div_mod, lemma_mod_bound};
use crate::{seq_min, seq_max, SCALE, VAL_LIMIT};
use crate::points::{x_seq, y_seq, Points};
use crate::series::{v_seq, TimeSeries};

verus! {

/// Number of colors in the rotating palette.
pub const PALETTE_LEN: usize = 6;

/// Whole-unit axis bounds for one plot: the horizontal axis spans
/// `x_lo..x_hi` and the vertical axis `y_lo..y_hi`.
#[derive(Debug, Copy, Clone, PartialEq, Eq, Structural)]
pub struct AxisRanges {
    pub x_lo: i64,
    pub x_hi: i64,
    pub y_lo: i64,
    pub y_hi: i64,
}

/// Every coordinate of the points lies within the accepted working range.
pub open spec fn points_bounded(s: Seq<crate::points::Point>) -> bool {
    forall|i: int|
        #![trigger s[i]]
        0 <= i < s.len() ==> -VAL_LIMIT <= s[i].x <= VAL_LIMIT && -VAL_LIMIT <= s[i].y
            <= VAL_LIMIT
}

/// The least element of a sequence within `[lo, hi]` lies within `[lo, hi]`.
pub proof fn lemma_seq_min_in_range(s: Seq<int>, lo: int, hi: int)
    requires
        s.len() >= 1,
        forall|i: int| 0 <= i < s.len() ==> lo <= #[trigger] s[i] <= hi,
    ensures
        lo <= seq_min(s) <= hi,
    decreases s.len(),
{
    if s.len() > 1 {
        lemma_seq_min_in_range(s.drop_last(), lo, hi);
    }
}

/// The greatest element of a sequence within `[lo, hi]` lies within `[lo, hi]`.
pub proof fn lemma_seq_max_in_range(s: Seq<int>, lo: int, hi: int)
    requires
        s.len() >= 1,
        forall|i: int| 0 <= i < s.len() ==> lo <= #[trigger] s[i] <= hi,
    ensures
        lo <= seq_max(s) <= hi,
    decreases s.len(),
{
    if s.len() > 1 {
        lemma_seq_max_in_range(s.drop_last(), lo, hi);
    }
}

/// The greatest whole unit at or below `x`: the floor of `x / SCALE`.
pub fn floor_units(x: i64) -> (r: i64)
    requires
        -VAL_LIMIT <= x <= VAL_LIMIT,
    ensures
        SCALE * r <= x < SCALE * (r + 1),
{
    if x >= 0 {
        let q: u64 = (x as u64) / (SCALE as u64);
        proof {
            lemma_fundamental_div_mod(x as int, SCALE as int);
            lemma_mod_bound(x as int, SCALE as int);
        }
        q as i64
    } else {
        let m: u64 = (-x) as u64;
        let qm: u64 = m / (SCALE as u64);
        let rm: u64 = m % (SCALE as u64);
        proof {
            lemma_fundamental_div_mod(m as int, SCALE as int);
            lemma_mod_bound(m as int, SCALE as int);
        }
        if rm == 0 {
            -(qm as i64)
        } else {
            -(qm as i64) - 1
        }
    }
}

/// The least whole unit at or above `x`: the ceiling of `x / SCALE`.
pub fn ceil_units(x: i64) -> (r: i64)
    requires
        -VAL_LIMIT <= x <= VAL_LIMIT,
    ensures
        SCALE * (r - 1) < x <= SCALE * r,
{
    if x <= 0 {
        let m: u64 = (-x) as u64;
        let qm: u64 = m / (SCALE as u64);
        proof {
            lemma_fundamental_div_mod(m as int, SCALE as int);
            lemma_mod_bound(m as int, SCALE as int);
        }
        -(qm as i64)
    } else {
        let q: u64 = (x as u64) / (SCALE as u64);
        let rem: u64 = (x as u64) % (SCALE as u64);
        proof {
            lemma_fundamental_div_mod(x as int, SCALE as int);
            lemma_mod_bound(x as int, SCALE as int);
        }
        if rem == 0 {
            q as i64
        } else {
            (q as i64) + 1
        }
    }
}

/// Axis bounds for a scatter plot: each axis spans from the floor of the
/// least coordinate to the ceiling of the greatest.
pub fn scatter_ranges(series: &Points) -> (r: AxisRanges)
    requires
        series.wf(),
        series.length >= 1,
        points_bounded(series.data@),
    ensures
        SCALE * r.x_lo <= seq_min(x_seq(series.data@)) < SCALE * (r.x_lo + 1),
        SCALE * (r.x_hi - 1) < seq_max(x_seq(series.data@)) <= SCALE * r.x_hi,
        SCALE * r.y_lo <= seq_min(y_seq(series.data@)) < SCALE * (r.y_lo + 1),
        SCALE * (r.y_hi - 1) < seq_max(y_seq(series.data@)) <= SCALE * r.y_hi,
{
    proof {
        lemma_seq_min_in_range(x_seq(series.data@), -VAL_LIMIT as int, VAL_LIMIT as int);
        lemma_seq_max_in_range(x_seq(series.data@), -VAL_LIMIT as int, VAL_LIMIT as int);
        lemma_seq_min_in_range(y_seq(series.data@), -VAL_LIMIT as int, VAL_LIMIT as int);
        lemma_seq_max_in_range(y_seq(series.data@), -VAL_LIMIT as int, VAL_LIMIT as int);
    }
    let (xmin, xmax, ymin, ymax) = series.calc_minmax();
    AxisRanges {
        x_lo: floor_units(xmin),
        x_hi: ceil_units(xmax),
        y_lo: floor_units(ymin),
        y_hi: ceil_units(ymax),
    }
}

/// Every recorded value of the series lies within the accepted working range.
pub open spec fn series_vals_in_range(s: Seq<crate::series::TimeValue>) -> bool {
    forall|i: int|
        #![trigger s[i]]
        0 <= i < s.len() ==> -VAL_LIMIT <= s[i].v <= VAL_LIMIT
}

/// Axis bounds for a time plot, sized from one fully recorded series: time
/// spans from the floor of the first stamp to the ceiling of the last, values
/// from the floor of the least to the ceiling of the greatest. When several
/// series share one plot, the first alone sizes the axes; the others are drawn
/// into its ranges and may be clipped.
pub fn timeplot_ranges(series: &TimeSeries) -> (r: AxisRanges)
    requires
        series.wf(),
        series.step == series.length - 1,
        series_vals_in_range(series.data@),
    ensures
        SCALE * r.x_lo <= series.data@[0].t < SCALE * (r.x_lo + 1),
        SCALE * (r.x_hi - 1) < series.data@[series.length - 1].t <= SCALE * r.x_hi,
        SCALE * r.y_lo <= seq_min(v_seq(series.data@)) < SCALE * (r.y_lo + 1),
        SCALE * (r.y_hi - 1) < seq_max(v_seq(series.data@)) <= SCALE * r.y_hi,
{
    proof {
        lemma_seq_min_in_range(v_seq(series.data@), -VAL_LIMIT as int, VAL_LIMIT as int);
        lemma_seq_max_in_range(v_seq(series.data@), -VAL_LIMIT as int, VAL_LIMIT as int);
        let last = series.length - 1;
        assert(series.data@[last].t == last * series.ctrlcycle);
        assert(0 <= last * series.ctrlcycle <= 100_000 * 1_000_000) by (nonlinear_arith)
            requires
                0 <= last <= 100_000,
                1 <= series.ctrlcycle <= 1_000_000,
        ;
    }
    let (tmin, tmax, vmin, vmax) = series.calc_minmax();
    AxisRanges {
        x_lo: floor_units(tmin),
        x_hi: ceil_units(tmax),
        y_lo: floor_units(vmin),
        y_hi: ceil_units(vmax),
    }
}

/// Palette slot for the series at `series_idx` in a time plot: the rotation
/// is offset by one, so the first series drawn skips the palette's first
/// color.
pub fn color_index(series_idx: usize) -> (r: usize)
    requires
        series_idx < usize::MAX,
    ensures
        r == (series_idx + 1) % (PALETTE_LEN as int),
        r < PALETTE_LEN,
{
    (series_idx + 1) % PALETTE_LEN
}

} // verus!
