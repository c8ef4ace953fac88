//! Fixed-capacity, append-only time series with step-indexed access.
use vstd::prelude::*;
use crate::{seq_min, seq_max, CYCLE_MAX, LEN_MAX};

verus! {

/// One recorded sample: a time stamp and a value, both in milli-units.
#[derive(Debug, Copy, Clone, PartialEq, Eq, Structural)]
pub struct TimeValue {
    pub t: i64,
    pub v: i64,
}

impl TimeValue {
    /// A sample at time zero holding `initvalue`.
    pub fn new(initvalue: i64) -> (r: TimeValue)
        ensures
            r == (TimeValue { t: 0i64, v: initvalue }),
    {
        TimeValue { t: 0, v: initvalue }
    }
}

/// Why a series operation was refused.
#[derive(Debug, Copy, Clone, PartialEq, Eq, Structural)]
pub enum SeriesError {
    /// Every slot after the initial one has been recorded already.
    CapacityExceeded,
    /// The requested step lies beyond what has been recorded.
    NotRecorded,
}

/// Number of slots a series spans: `simtime / cycle`, rounded up.
pub open spec fn series_len(cycle: int, simtime: int) -> int
    recommends
        cycle >= 1,
{
    (simtime + cycle - 1) / cycle
}

/// The values of a sequence of samples, as mathematical integers.
pub open spec fn v_seq(s: Seq<TimeValue>) -> Seq<int> {
    s.map(|i: int, tv: TimeValue| tv.v as int)
}

/// An ordered, fixed-length sequence of samples, filled left to right by a
/// monotonically advancing step cursor. Slot 0 is written at construction;
/// each successful `recordvalue` fills the next slot with a time one cycle
/// past the previous slot's.
#[derive(Debug)]
pub struct TimeSeries {
    pub data: Vec<TimeValue>,
    /// Sample interval between recorded slots, in milli-seconds.
    pub ctrlcycle: i64,
    pub length: usize,
    /// Index of the most recently written slot.
    pub step: usize,
}

impl TimeSeries {
    /// Structural invariant: the backing vector matches `length`, the cursor
    /// stays inside it, and every recorded slot `i` carries time `i * cycle`.
    pub open spec fn wf(self) -> bool {
        &&& self.data@.len() == self.length
        &&& 1 <= self.length <= LEN_MAX
        &&& 1 <= self.ctrlcycle <= CYCLE_MAX
        &&& self.step < self.length
        &&& forall|i: int|
            0 <= i <= self.step ==> (#[trigger] self.data@[i].t) == i * self.ctrlcycle
    }

    /// Allocates `ceil(simtime / cycle)` slots; slot 0 holds `(0, initvalue)`
    /// and every later slot holds zeroes until it is recorded.
    pub fn new(cycle: i64, simtime: i64, initvalue: i64) -> (r: TimeSeries)
        requires
            1 <= cycle <= CYCLE_MAX,
            1 <= simtime,
            series_len(cycle as int, simtime as int) <= LEN_MAX,
        ensures
            r.wf(),
            r.ctrlcycle == cycle,
            r.step == 0,
            r.length == series_len(cycle as int, simtime as int),
            r.data@[0] == (TimeValue { t: 0i64, v: initvalue }),
            forall|i: int| 1 <= i < r.length ==> r.data@[i] == (TimeValue { t: 0i64, v: 0i64 }),
    {
        let num: u64 = (simtime as u64) + (cycle as u64) - 1;
        let len_u: u64 = num / (cycle as u64);
        proof {
            assert(num as int == simtime + cycle - 1);
            assert(len_u as int == series_len(cycle as int, simtime as int));
            assert(len_u >= 1) by (nonlinear_arith)
                requires
                    num as int >= cycle as int,
                    cycle >= 1,
                    len_u as int == (num as int) / (cycle as int),
            ;
        }
        let len: usize = len_u as usize;

        let mut data: Vec<TimeValue> = Vec::new();
        data.push(TimeValue::new(initvalue));
        let mut k: usize = 1;
        while k < len
            invariant
                1 <= k <= len,
                data@.len() == k,
                data@[0] == (TimeValue { t: 0i64, v: initvalue }),
                forall|i: int| 1 <= i < k ==> data@[i] == (TimeValue { t: 0i64, v: 0i64 }),
            decreases len - k,
        {
            data.push(TimeValue { t: 0, v: 0 });
            k = k + 1;
        }
        TimeSeries { data, ctrlcycle: cycle, length: len, step: 0 }
    }

    /// Advances the cursor and writes `(previous time + cycle, value)` into
    /// the newly advanced slot. Refused, leaving the series unchanged, exactly
    /// when the cursor already sits on the last slot.
    pub fn recordvalue(&mut self, value: i64) -> (r: Result<(), SeriesError>)
        requires
            old(self).wf(),
        ensures
            final(self).wf(),
            final(self).ctrlcycle == old(self).ctrlcycle,
            final(self).length == old(self).length,
            (r is Ok) <==> old(self).step + 1 < old(self).length,
            r is Err ==> *final(self) == *old(self) && r == Err::<(), SeriesError>(
                SeriesError::CapacityExceeded,
            ),
            r is Ok ==> final(self).step == old(self).step + 1 && final(self).data@ == old(
                self,
            ).data@.update(
                old(self).step + 1,
                (TimeValue {
                    t: (old(self).data@[old(self).step as int].t + old(self).ctrlcycle) as i64,
                    v: value,
                }),
            ),
    {
        if self.step + 1 >= self.length {
            return Err(SeriesError::CapacityExceeded);
        }
        proof {
            let s = self.step as int;
            let c = self.ctrlcycle as int;
            assert(self.data@[s].t == s * c);
            assert(s * c + c == (s + 1) * c) by (nonlinear_arith);
            assert(0 <= (s + 1) * c <= 100_000 * 1_000_000) by (nonlinear_arith)
                requires
                    0 <= s,
                    s + 1 <= 100_000,
                    1 <= c <= 1_000_000,
            ;
        }
        let timenow = self.data[self.step].t + self.ctrlcycle;
        self.step = self.step + 1;
        self.data[self.step] = TimeValue { t: timenow, v: value };
        Ok(())
    }

    /// The recorded value at `step`; refused when `step` lies past the cursor.
    /// The bound is checked against the requested index, so an unrecorded slot
    /// is reported rather than read.
    pub fn getvalue_bystep(&self, step: usize) -> (r: Result<i64, SeriesError>)
        requires
            self.wf(),
        ensures
            step <= self.step ==> r == Ok::<i64, SeriesError>(self.data@[step as int].v),
            step > self.step ==> r == Err::<i64, SeriesError>(SeriesError::NotRecorded),
    {
        if step > self.step {
            return Err(SeriesError::NotRecorded);
        }
        Ok(self.data[step].v)
    }

    /// The recorded time at `step`; refused when `step` lies past the cursor.
    pub fn gettime_bystep(&self, step: usize) -> (r: Result<i64, SeriesError>)
        requires
            self.wf(),
        ensures
            step <= self.step ==> r == Ok::<i64, SeriesError>(self.data@[step as int].t),
            step > self.step ==> r == Err::<i64, SeriesError>(SeriesError::NotRecorded),
    {
        if step > self.step {
            return Err(SeriesError::NotRecorded);
        }
        Ok(self.data[step].t)
    }

    /// The cursor: how many slots past the initial one have been recorded.
    pub fn curstep(&self) -> (r: usize)
        ensures
            r == self.step,
    {
        self.step
    }

    /// One linear pass over the whole backing store, returned as
    /// `(first time, last time, vmin, vmax)`. Times bound the horizontal axis
    /// because recorded times increase monotonically; the value extrema come
    /// from the same at-most-one-update-per-element scan as for points, which
    /// is exact because the running minimum never exceeds the running maximum.
    pub fn calc_minmax(&self) -> (r: (i64, i64, i64, i64))
        requires
            self.wf(),
        ensures
            r.0 == self.data@[0].t,
            r.1 == self.data@[self.length - 1].t,
            r.2 == seq_min(v_seq(self.data@)),
            r.3 == seq_max(v_seq(self.data@)),
    {
        let ghost vs = v_seq(self.data@);
        let mut vmin = self.data[0].v;
        let mut vmax = self.data[0].v;
        assert(vs.subrange(0, 1) =~= seq![vs[0]]);

        let mut k: usize = 1;
        while k < self.data.len()
            invariant
                self.wf(),
                1 <= k <= self.data@.len(),
                vs == v_seq(self.data@),
                vmin <= vmax,
                vmin == seq_min(vs.subrange(0, k as int)),
                vmax == seq_max(vs.subrange(0, k as int)),
            decreases self.data@.len() - k,
        {
            let pt = self.data[k];
            proof {
                assert(vs.subrange(0, k + 1).drop_last() =~= vs.subrange(0, k as int));
                assert(vs.subrange(0, k + 1).last() == pt.v as int);
            }
            if pt.v < vmin {
                vmin = pt.v;
            } else if pt.v > vmax {
                vmax = pt.v;
            }
            k = k + 1;
        }
        assert(vs.subrange(0, self.data@.len() as int) =~= vs);
        (self.data[0].t, self.data[self.length - 1].t, vmin, vmax)
    }

    /// First recorded time: always the time of slot 0.
    pub fn xmin(&self) -> (r: i64)
        requires
            self.wf(),
        ensures
            r == self.data@[0].t,
    {
        self.data[0].t
    }

    /// Time of the final slot: the greatest time once the series is full.
    pub fn xmax(&self) -> (r: i64)
        requires
            self.wf(),
        ensures
            r == self.data@[self.length - 1].t,
    {
        self.data[self.length - 1].t
    }

    /// Least value over the whole backing store.
    pub fn ymin(&self) -> (r: i64)
        requires
            self.wf(),
        ensures
            r == seq_min(v_seq(self.data@)),
    {
        self.calc_minmax().2
    }

    /// Greatest value over the whole backing store.
    pub fn ymax(&self) -> (r: i64)
        requires
            self.wf(),
        ensures
            r == seq_max(v_seq(self.data@)),
    {
        self.calc_minmax().3
    }

    /// Recorded times advance by exactly one cycle per step: for any step `i`
    /// in `[1, cursor]`, the time at `i` is the time at `i - 1` plus the cycle.
    pub proof fn lemma_time_progression(self, i: int)
        requires
            self.wf(),
            1 <= i <= self.step,
        ensures
            self.data@[i].t == self.data@[i - 1].t + self.ctrlcycle,
    {
        let c = self.ctrlcycle as int;
        assert(self.data@[i].t == i * c);
        assert(self.data@[i - 1].t == (i - 1) * c);
        assert((i - 1) * c + c == i * c) by (nonlinear_arith);
    }
}

} // verus!
