//! One-dimensional dead-reckoning simulation over caller-supplied noise.
//!
//! The driver integrates a noisy true speed into a true position and an
//! independently noisy speed observation into an estimated position, records
//! all three series step by step, and scans the two positions for the largest
//! absolute error and the time at which it first occurs. Random sampling is
//! the caller's business: the driver is a function of the noise samples it is
//! handed, so its outputs are pinned by its inputs.
use vstd::prelude::*;
use crate::{abs_val, CYCLE_MAX, LEN_MAX, SPEED_MAX, VAL_LIMIT};
use crate::series::{series_len, TimeSeries, TimeValue};

verus! {

/// Configuration of one simulation run: control cycle and total duration in
/// milli-seconds, mean speed in milli-units.
#[derive(Debug, Copy, Clone, PartialEq, Eq, Structural)]
pub struct SimConfig {
    pub cycle: i64,
    pub simtime: i64,
    pub speed_ave: i64,
}

/// The four numbers a run reports: final true position, final estimated
/// position, largest absolute error, and the time of its first occurrence.
/// Positions are in cycle-times-speed product units.
#[derive(Debug, Copy, Clone, PartialEq, Eq, Structural)]
pub struct SimReport {
    pub x_true_final: i64,
    pub x_est_final: i64,
    pub max_err: i64,
    pub max_err_time: i64,
}

/// Everything a run produces: the three recorded series and the report.
#[derive(Debug)]
pub struct SimOutput {
    pub x_true: TimeSeries,
    pub x_est: TimeSeries,
    pub spd_true: TimeSeries,
    pub report: SimReport,
}

/// A configuration the driver accepts.
pub open spec fn config_wf(cfg: SimConfig) -> bool {
    &&& 1 <= cfg.cycle <= CYCLE_MAX
    &&& 1 <= cfg.simtime
    &&& series_len(cfg.cycle as int, cfg.simtime as int) <= LEN_MAX
    &&& -SPEED_MAX <= cfg.speed_ave <= SPEED_MAX
}

/// Number of slots each recorded series spans.
pub open spec fn sim_len(cfg: SimConfig) -> int {
    series_len(cfg.cycle as int, cfg.simtime as int)
}

/// The first `n` samples all lie within the accepted speed range.
pub open spec fn samples_ok(s: Seq<i64>, n: int) -> bool {
    forall|i: int| 0 <= i < n ==> -SPEED_MAX <= #[trigger] s[i] <= SPEED_MAX
}

/// True speed at step `i`: the mean plus the speed noise sample.
pub open spec fn spd_at(cfg: SimConfig, sn: Seq<i64>, i: int) -> int {
    cfg.speed_ave + sn[i]
}

/// Observed speed at step `i`: the true speed plus the sensor noise sample.
pub open spec fn obs_at(cfg: SimConfig, sn: Seq<i64>, on: Seq<i64>, i: int) -> int {
    spd_at(cfg, sn, i) + on[i]
}

/// True position after `i` steps of integrating the true speed.
pub open spec fn xpos_at(cfg: SimConfig, sn: Seq<i64>, i: int) -> int
    decreases i,
{
    if i <= 0 {
        0
    } else {
        xpos_at(cfg, sn, i - 1) + cfg.cycle * spd_at(cfg, sn, i - 1)
    }
}

/// Estimated position after `i` steps of integrating the observed speed.
pub open spec fn xest_at(cfg: SimConfig, sn: Seq<i64>, on: Seq<i64>, i: int) -> int
    decreases i,
{
    if i <= 0 {
        0
    } else {
        xest_at(cfg, sn, on, i - 1) + cfg.cycle * obs_at(cfg, sn, on, i - 1)
    }
}

/// The true position stays within one maximal increment per step.
pub proof fn lemma_xpos_bound(cfg: SimConfig, sn: Seq<i64>, i: int)
    requires
        config_wf(cfg),
        0 <= i,
        samples_ok(sn, i),
    ensures
        abs_val(xpos_at(cfg, sn, i)) <= i * 2_000_000_000_000,
    decreases i,
{
    if i > 0 {
        lemma_xpos_bound(cfg, sn, i - 1);
        let c = cfg.cycle as int;
        let s = spd_at(cfg, sn, i - 1);
        assert(-2_000_000_000_000 <= c * s <= 2_000_000_000_000) by (nonlinear_arith)
            requires
                1 <= c <= 1_000_000,
                -2_000_000 <= s <= 2_000_000,
        ;
        assert((i - 1) * 2_000_000_000_000 + 2_000_000_000_000 == i * 2_000_000_000_000)
            by (nonlinear_arith);
    }
}

/// The estimated position stays within one maximal increment per step.
pub proof fn lemma_xest_bound(cfg: SimConfig, sn: Seq<i64>, on: Seq<i64>, i: int)
    requires
        config_wf(cfg),
        0 <= i,
        samples_ok(sn, i),
        samples_ok(on, i),
    ensures
        abs_val(xest_at(cfg, sn, on, i)) <= i * 3_000_000_000_000,
    decreases i,
{
    if i > 0 {
        lemma_xest_bound(cfg, sn, on, i - 1);
        let c = cfg.cycle as int;
        let s = obs_at(cfg, sn, on, i - 1);
        assert(-3_000_000_000_000 <= c * s <= 3_000_000_000_000) by (nonlinear_arith)
            requires
                1 <= c <= 1_000_000,
                -3_000_000 <= s <= 3_000_000,
        ;
        assert((i - 1) * 3_000_000_000_000 + 3_000_000_000_000 == i * 3_000_000_000_000)
            by (nonlinear_arith);
    }
}

/// With no sensor noise the estimate reduces to the same deterministic
/// integration as the true position: the two agree at every step.
pub proof fn lemma_zero_noise_tracks(cfg: SimConfig, sn: Seq<i64>, on: Seq<i64>, i: int)
    requires
        0 <= i,
        forall|j: int| 0 <= j < i ==> #[trigger] on[j] == 0,
    ensures
        xest_at(cfg, sn, on, i) == xpos_at(cfg, sn, i),
    decreases i,
{
    if i > 0 {
        lemma_zero_noise_tracks(cfg, sn, on, i - 1);
    }
}

/// Absolute difference of the two recorded positions at step `i`.
pub open spec fn err_at(xt: Seq<TimeValue>, xe: Seq<TimeValue>, i: int) -> int {
    abs_val(xt[i].v - xe[i].v)
}

/// `maxerr` bounds every error over the first `n` steps, and `maxtime` is the
/// time of the first step achieving it (zero when every error is zero).
pub open spec fn is_max_err(
    xt: Seq<TimeValue>,
    xe: Seq<TimeValue>,
    n: int,
    maxerr: int,
    maxtime: int,
) -> bool {
    &&& 0 <= maxerr
    &&& forall|i: int| 0 <= i < n ==> #[trigger] err_at(xt, xe, i) <= maxerr
    &&& (maxerr == 0 ==> maxtime == 0)
    &&& (maxerr > 0 ==> exists|i: int|
        {
            &&& 0 <= i < n
            &&& #[trigger] err_at(xt, xe, i) == maxerr
            &&& maxtime == xt[i].t
            &&& forall|j: int| 0 <= j < i ==> #[trigger] err_at(xt, xe, j) < maxerr
        })
}

/// All recorded values over the first `n` slots fit the scan's working range.
pub open spec fn vals_bounded(s: Seq<TimeValue>, n: int) -> bool {
    forall|i: int| 0 <= i < n ==> -VAL_LIMIT <= (#[trigger] s[i].v) <= VAL_LIMIT
}

/// Scans two equally recorded series over all recorded steps, tracking the
/// running maximum absolute difference and the time it first occurs.
#[verifier::loop_isolation(false)]
pub fn max_error_scan(xt: &TimeSeries, xe: &TimeSeries) -> (r: (i64, i64))
    requires
        xt.wf(),
        xe.wf(),
        xe.step == xt.step,
        vals_bounded(xt.data@, xt.step + 1),
        vals_bounded(xe.data@, xt.step + 1),
    ensures
        is_max_err(xt.data@, xe.data@, xt.step + 1, r.0 as int, r.1 as int),
{
    let mut maxerr: i64 = 0;
    let mut maxerr_time: i64 = 0;
    let mut idx: usize = 0;
    while idx <= xt.step
        invariant
            idx <= xt.step + 1,
            0 <= maxerr,
            maxerr == 0 ==> maxerr_time == 0,
            forall|i: int| 0 <= i < idx ==> #[trigger] err_at(xt.data@, xe.data@, i) <= maxerr,
            maxerr > 0 ==> exists|i: int|
                {
                    &&& 0 <= i < idx
                    &&& #[trigger] err_at(xt.data@, xe.data@, i) == maxerr
                    &&& maxerr_time == xt.data@[i].t
                    &&& forall|j: int| 0 <= j < i ==> #[trigger] err_at(xt.data@, xe.data@, j)
                        < maxerr
                },
        decreases xt.step + 1 - idx,
    {
        let xt_i = xt.getvalue_bystep(idx).unwrap();
        let xe_i = xe.getvalue_bystep(idx).unwrap();
        let d = xt_i - xe_i;
        let err = if d < 0 {
            -d
        } else {
            d
        };
        assert(err as int == err_at(xt.data@, xe.data@, idx as int));
        if err > maxerr {
            maxerr = err;
            maxerr_time = xt.gettime_bystep(idx).unwrap();
        }
        idx = idx + 1;
    }
    (maxerr, maxerr_time)
}

/// Runs the whole simulation: initializes the three series, integrates the
/// noisy speeds over `sim_len - 1` steps while recording, scans for the
/// largest position error, and reports the final values. Every output is a
/// function of the configuration and the two noise sequences alone, so a rerun
/// on the same inputs reports the same numbers.
#[verifier::loop_isolation(false)]
pub fn vehicle_simulation(cfg: &SimConfig, speed_noise: &Vec<i64>, sensor_noise: &Vec<i64>) -> (r:
    SimOutput)
    requires
        config_wf(*cfg),
        speed_noise@.len() >= sim_len(*cfg) - 1,
        sensor_noise@.len() >= sim_len(*cfg) - 1,
        samples_ok(speed_noise@, sim_len(*cfg) - 1),
        samples_ok(sensor_noise@, sim_len(*cfg) - 1),
    ensures
        r.x_true.wf() && r.x_est.wf() && r.spd_true.wf(),
        r.x_true.length == sim_len(*cfg) && r.x_est.length == sim_len(*cfg)
            && r.spd_true.length == sim_len(*cfg),
        r.x_true.ctrlcycle == cfg.cycle && r.x_est.ctrlcycle == cfg.cycle
            && r.spd_true.ctrlcycle == cfg.cycle,
        r.x_true.step == sim_len(*cfg) - 1 && r.x_est.step == sim_len(*cfg) - 1
            && r.spd_true.step == sim_len(*cfg) - 1,
        forall|i: int|
            0 <= i < sim_len(*cfg) ==> (#[trigger] r.x_true.data@[i].v) == xpos_at(
                *cfg,
                speed_noise@,
                i,
            ),
        forall|i: int|
            0 <= i < sim_len(*cfg) ==> (#[trigger] r.x_est.data@[i].v) == xest_at(
                *cfg,
                speed_noise@,
                sensor_noise@,
                i,
            ),
        r.spd_true.data@[0].v == 0,
        forall|i: int|
            1 <= i < sim_len(*cfg) ==> (#[trigger] r.spd_true.data@[i].v) == spd_at(
                *cfg,
                speed_noise@,
                i - 1,
            ),
        r.report.x_true_final == xpos_at(*cfg, speed_noise@, sim_len(*cfg) - 1),
        r.report.x_est_final == xest_at(*cfg, speed_noise@, sensor_noise@, sim_len(*cfg) - 1),
        is_max_err(
            r.x_true.data@,
            r.x_est.data@,
            sim_len(*cfg),
            r.report.max_err as int,
            r.report.max_err_time as int,
        ),
{
    let mut x_true = TimeSeries::new(cfg.cycle, cfg.simtime, 0);
    let mut x_est = TimeSeries::new(cfg.cycle, cfg.simtime, 0);
    let mut spd_true = TimeSeries::new(cfg.cycle, cfg.simtime, 0);
    let len = x_true.length;

    let mut xpos: i64 = 0;
    let mut xpos_est: i64 = 0;
    let mut idx: usize = 0;
    while idx < len - 1
        invariant
            idx <= len - 1,
            x_true.wf() && x_est.wf() && spd_true.wf(),
            x_true.length == len && x_est.length == len && spd_true.length == len,
            x_true.ctrlcycle == cfg.cycle && x_est.ctrlcycle == cfg.cycle && spd_true.ctrlcycle
                == cfg.cycle,
            x_true.step == idx && x_est.step == idx && spd_true.step == idx,
            xpos == xpos_at(*cfg, speed_noise@, idx as int),
            xpos_est == xest_at(*cfg, speed_noise@, sensor_noise@, idx as int),
            abs_val(xpos as int) <= idx * 2_000_000_000_000,
            abs_val(xpos_est as int) <= idx * 3_000_000_000_000,
            forall|i: int|
                0 <= i <= idx ==> (#[trigger] x_true.data@[i].v) == xpos_at(
                    *cfg,
                    speed_noise@,
                    i,
                ),
            forall|i: int|
                0 <= i <= idx ==> (#[trigger] x_est.data@[i].v) == xest_at(
                    *cfg,
                    speed_noise@,
                    sensor_noise@,
                    i,
                ),
            spd_true.data@[0].v == 0,
            forall|i: int|
                1 <= i <= idx ==> (#[trigger] spd_true.data@[i].v) == spd_at(
                    *cfg,
                    speed_noise@,
                    i - 1,
                ),
        decreases len - 1 - idx,
    {
        let ghost prev = idx as int;
        let spd: i64 = cfg.speed_ave + speed_noise[idx];
        let y: i64 = spd + sensor_noise[idx];
        proof {
            let c = cfg.cycle as int;
            assert(-2_000_000_000_000 <= c * spd <= 2_000_000_000_000) by (nonlinear_arith)
                requires
                    1 <= c <= 1_000_000,
                    -2_000_000 <= spd <= 2_000_000,
            ;
            assert(-3_000_000_000_000 <= c * y <= 3_000_000_000_000) by (nonlinear_arith)
                requires
                    1 <= c <= 1_000_000,
                    -3_000_000 <= y <= 3_000_000,
            ;
            assert(prev * 2_000_000_000_000 + 2_000_000_000_000 == (prev + 1)
                * 2_000_000_000_000) by (nonlinear_arith);
            assert(prev * 3_000_000_000_000 + 3_000_000_000_000 == (prev + 1)
                * 3_000_000_000_000) by (nonlinear_arith);
            assert((prev + 1) * 2_000_000_000_000 <= 100_000 * 2_000_000_000_000)
                by (nonlinear_arith)
                requires
                    prev + 1 <= 100_000,
            ;
            assert((prev + 1) * 3_000_000_000_000 <= 100_000 * 3_000_000_000_000)
                by (nonlinear_arith)
                requires
                    prev + 1 <= 100_000,
            ;
        }
        let inc: i64 = cfg.cycle * spd;
        xpos = xpos + inc;
        let inc_est: i64 = cfg.cycle * y;
        xpos_est = xpos_est + inc_est;

        x_true.recordvalue(xpos).unwrap();
        spd_true.recordvalue(spd).unwrap();
        x_est.recordvalue(xpos_est).unwrap();
        idx = idx + 1;
    }

    proof {
        assert forall|i: int| 0 <= i < len implies -VAL_LIMIT <= (#[trigger] x_true.data@[i].v)
            <= VAL_LIMIT by {
            lemma_xpos_bound(*cfg, speed_noise@, i);
            assert(i * 2_000_000_000_000 <= 100_000 * 2_000_000_000_000) by (nonlinear_arith)
                requires
                    i <= 100_000,
            ;
        }
        assert forall|i: int| 0 <= i < len implies -VAL_LIMIT <= (#[trigger] x_est.data@[i].v)
            <= VAL_LIMIT by {
            lemma_xest_bound(*cfg, speed_noise@, sensor_noise@, i);
            assert(i * 3_000_000_000_000 <= 100_000 * 3_000_000_000_000) by (nonlinear_arith)
                requires
                    i <= 100_000,
            ;
        }
    }
    let (max_err, max_err_time) = max_error_scan(&x_true, &x_est);

    let report = SimReport { x_true_final: xpos, x_est_final: xpos_est, max_err, max_err_time };
    SimOutput { x_true, x_est, spd_true, report }
}

} // verus!
