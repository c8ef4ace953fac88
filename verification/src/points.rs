//! Fixed-length lists of 2-D samples with a combined min/max scan.
use vstd::prelude::*;
use crate::{seq_min, seq_max};

verus! {

/// One 2-D sample, both coordinates in milli-units.
#[derive(Debug, Copy, Clone, PartialEq, Eq, Structural)]
pub struct Point {
    pub x: i64,
    pub y: i64,
}

impl Point {
    pub fn new(x: i64, y: i64) -> (r: Point)
        ensures
            r == (Point { x, y }),
    {
        Point { x, y }
    }
}

/// The x coordinates of a sequence of points, as mathematical integers.
pub open spec fn x_seq(s: Seq<Point>) -> Seq<int> {
    s.map(|i: int, p: Point| p.x as int)
}

/// The y coordinates of a sequence of points, as mathematical integers.
pub open spec fn y_seq(s: Seq<Point>) -> Seq<int> {
    s.map(|i: int, p: Point| p.y as int)
}

/// An ordered, fixed-length sequence of points. The length is fixed at
/// construction; callers fill the slots in place before querying extrema.
#[derive(Debug)]
pub struct Points {
    pub data: Vec<Point>,
    pub length: usize,
}

impl Points {
    /// The backing vector always holds exactly `length` points.
    pub open spec fn wf(self) -> bool {
        self.data@.len() == self.length
    }

    /// Allocates `len` points, each initialized to the origin.
    pub fn new(len: usize) -> (r: Points)
        ensures
            r.wf(),
            r.length == len,
            forall|i: int| 0 <= i < len ==> r.data@[i] == (Point { x: 0i64, y: 0i64 }),
    {
        let mut data: Vec<Point> = Vec::new();
        let mut k: usize = 0;
        while k < len
            invariant
                k <= len,
                data@.len() == k,
                forall|i: int| 0 <= i < k ==> data@[i] == (Point { x: 0i64, y: 0i64 }),
            decreases len - k,
        {
            data.push(Point { x: 0, y: 0 });
            k = k + 1;
        }
        Points { data, length: len }
    }

    /// One linear pass computing all four extrema at once, returned as
    /// `(xmin, xmax, ymin, ymax)`.
    ///
    /// Each comparison chain updates at most one of the running minimum and
    /// maximum per element; that loses nothing, because the running minimum
    /// never exceeds the running maximum, so no element can better both at
    /// once. The result is the exact extrema of the data.
    pub fn calc_minmax(&self) -> (r: (i64, i64, i64, i64))
        requires
            self.wf(),
            self.length >= 1,
        ensures
            r.0 == seq_min(x_seq(self.data@)),
            r.1 == seq_max(x_seq(self.data@)),
            r.2 == seq_min(y_seq(self.data@)),
            r.3 == seq_max(y_seq(self.data@)),
    {
        let ghost xs = x_seq(self.data@);
        let ghost ys = y_seq(self.data@);
        let mut xmin = self.data[0].x;
        let mut xmax = self.data[0].x;
        let mut ymin = self.data[0].y;
        let mut ymax = self.data[0].y;
        assert(xs.subrange(0, 1) =~= seq![xs[0]]);
        assert(ys.subrange(0, 1) =~= seq![ys[0]]);

        let mut k: usize = 1;
        while k < self.data.len()
            invariant
                self.wf(),
                self.length >= 1,
                1 <= k <= self.data@.len(),
                xs == x_seq(self.data@),
                ys == y_seq(self.data@),
                xmin <= xmax,
                ymin <= ymax,
                xmin == seq_min(xs.subrange(0, k as int)),
                xmax == seq_max(xs.subrange(0, k as int)),
                ymin == seq_min(ys.subrange(0, k as int)),
                ymax == seq_max(ys.subrange(0, k as int)),
            decreases self.data@.len() - k,
        {
            let pt = self.data[k];
            proof {
                assert(xs.subrange(0, k + 1).drop_last() =~= xs.subrange(0, k as int));
                assert(ys.subrange(0, k + 1).drop_last() =~= ys.subrange(0, k as int));
                assert(xs.subrange(0, k + 1).last() == pt.x as int);
                assert(ys.subrange(0, k + 1).last() == pt.y as int);
            }
            if pt.x < xmin {
                xmin = pt.x;
            } else if pt.x > xmax {
                xmax = pt.x;
            }
            if pt.y < ymin {
                ymin = pt.y;
            } else if pt.y > ymax {
                ymax = pt.y;
            }
            k = k + 1;
        }
        assert(xs.subrange(0, self.data@.len() as int) =~= xs);
        assert(ys.subrange(0, self.data@.len() as int) =~= ys);
        (xmin, xmax, ymin, ymax)
    }

    /// Least x coordinate.
    pub fn xmin(&self) -> (r: i64)
        requires
            self.wf(),
            self.length >= 1,
        ensures
            r == seq_min(x_seq(self.data@)),
    {
        self.calc_minmax().0
    }

    /// Greatest x coordinate.
    pub fn xmax(&self) -> (r: i64)
        requires
            self.wf(),
            self.length >= 1,
        ensures
            r == seq_max(x_seq(self.data@)),
    {
        self.calc_minmax().1
    }

    /// Least y coordinate.
    pub fn ymin(&self) -> (r: i64)
        requires
            self.wf(),
            self.length >= 1,
        ensures
            r == seq_min(y_seq(self.data@)),
    {
        self.calc_minmax().2
    }

    /// Greatest y coordinate.
    pub fn ymax(&self) -> (r: i64)
        requires
            self.wf(),
            self.length >= 1,
        ensures
            r == seq_max(y_seq(self.data@)),
    {
        self.calc_minmax().3
    }
}

} // verus!
