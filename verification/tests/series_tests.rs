use deadreckon::points::{Point, Points};
use deadreckon::series::{SeriesError, TimeSeries, TimeValue};

#[test]
fn point_and_timevalue_new() {
    let p = Point::new(3, -4);
    assert_eq!(p.x, 3);
    assert_eq!(p.y, -4);
    let tv = TimeValue::new(42);
    assert_eq!(tv.t, 0);
    assert_eq!(tv.v, 42);
}

#[test]
fn points_new_zero_init() {
    let pts = Points::new(7);
    assert_eq!(pts.length, 7);
    assert_eq!(pts.data.len(), 7);
    for p in &pts.data {
        assert_eq!(p.x, 0);
        assert_eq!(p.y, 0);
    }
}

#[test]
fn points_minmax_scan() {
    let mut pts = Points::new(3);
    pts.data[0] = Point::new(1, 5);
    pts.data[1] = Point::new(9, 2);
    pts.data[2] = Point::new(3, 8);
    assert_eq!(pts.calc_minmax(), (1, 9, 2, 8));
    assert_eq!(pts.xmin(), 1);
    assert_eq!(pts.xmax(), 9);
    assert_eq!(pts.ymin(), 2);
    assert_eq!(pts.ymax(), 8);
}

#[test]
fn points_minmax_single_element() {
    let mut pts = Points::new(1);
    pts.data[0] = Point::new(-3, 11);
    assert_eq!(pts.calc_minmax(), (-3, -3, 11, 11));
}

#[test]
fn timeseries_new_shape() {
    let ts = TimeSeries::new(100, 1000, 7);
    assert_eq!(ts.length, 10);
    assert_eq!(ts.curstep(), 0);
    assert_eq!(ts.getvalue_bystep(0), Ok(7));
    assert_eq!(ts.gettime_bystep(0), Ok(0));
}

#[test]
fn timeseries_length_rounds_up() {
    // 250 / 100 rounds up to 3 slots.
    let ts = TimeSeries::new(100, 250, 0);
    assert_eq!(ts.length, 3);
}

#[test]
fn record_fills_capacity_then_fails() {
    let mut ts = TimeSeries::new(100, 1000, 0);
    let capacity = ts.length;
    assert_eq!(capacity, 10);
    for k in 0..capacity - 1 {
        assert_eq!(ts.recordvalue(k as i64), Ok(()));
    }
    assert_eq!(ts.curstep(), capacity - 1);
    assert_eq!(ts.recordvalue(99), Err(SeriesError::CapacityExceeded));
    // The refused call changes nothing.
    assert_eq!(ts.curstep(), capacity - 1);
    assert_eq!(ts.getvalue_bystep(capacity - 1), Ok((capacity - 2) as i64));
}

#[test]
fn recorded_times_advance_by_cycle() {
    let mut ts = TimeSeries::new(100, 1000, 0);
    for k in 0..9 {
        ts.recordvalue(k).unwrap();
    }
    for i in 1..=ts.curstep() {
        let t_prev = ts.gettime_bystep(i - 1).unwrap();
        let t_here = ts.gettime_bystep(i).unwrap();
        assert_eq!(t_here, t_prev + 100);
        assert_eq!(t_here, (i as i64) * 100);
    }
}

#[test]
fn read_past_cursor_is_refused() {
    let mut ts = TimeSeries::new(100, 1000, 0);
    ts.recordvalue(5).unwrap();
    assert_eq!(ts.getvalue_bystep(1), Ok(5));
    assert_eq!(ts.getvalue_bystep(2), Err(SeriesError::NotRecorded));
    assert_eq!(ts.gettime_bystep(2), Err(SeriesError::NotRecorded));
}

#[test]
fn timeseries_minmax_scan() {
    let mut ts = TimeSeries::new(100, 400, 0);
    assert_eq!(ts.length, 4);
    ts.recordvalue(-5).unwrap();
    ts.recordvalue(10).unwrap();
    ts.recordvalue(2).unwrap();
    assert_eq!(ts.calc_minmax(), (0, 300, -5, 10));
    assert_eq!(ts.xmin(), 0);
    assert_eq!(ts.xmax(), 300);
    assert_eq!(ts.ymin(), -5);
    assert_eq!(ts.ymax(), 10);
}
