use deadreckon::points::{Point, Points};
use deadreckon::render::{color_index, ceil_units, floor_units, scatter_ranges, timeplot_ranges, AxisRanges};
use deadreckon::series::TimeSeries;

#[test]
fn floor_units_values() {
    assert_eq!(floor_units(0), 0);
    assert_eq!(floor_units(999), 0);
    assert_eq!(floor_units(1000), 1);
    assert_eq!(floor_units(1500), 1);
    assert_eq!(floor_units(-1), -1);
    assert_eq!(floor_units(-1000), -1);
    assert_eq!(floor_units(-1500), -2);
}

#[test]
fn ceil_units_values() {
    assert_eq!(ceil_units(0), 0);
    assert_eq!(ceil_units(1), 1);
    assert_eq!(ceil_units(1000), 1);
    assert_eq!(ceil_units(1500), 2);
    assert_eq!(ceil_units(-999), 0);
    assert_eq!(ceil_units(-1000), -1);
    assert_eq!(ceil_units(-1500), -1);
}

#[test]
fn scatter_ranges_values() {
    let mut pts = Points::new(3);
    pts.data[0] = Point::new(1500, 5000);
    pts.data[1] = Point::new(9000, 2200);
    pts.data[2] = Point::new(3000, 8400);
    let r = scatter_ranges(&pts);
    assert_eq!(r, AxisRanges { x_lo: 1, x_hi: 9, y_lo: 2, y_hi: 9 });
}

#[test]
fn timeplot_ranges_values() {
    let mut ts = TimeSeries::new(500, 1500, 0);
    assert_eq!(ts.length, 3);
    ts.recordvalue(2500).unwrap();
    ts.recordvalue(-700).unwrap();
    let r = timeplot_ranges(&ts);
    assert_eq!(r, AxisRanges { x_lo: 0, x_hi: 1, y_lo: -1, y_hi: 3 });
}

#[test]
fn color_rotation_skips_first() {
    assert_eq!(color_index(0), 1);
    assert_eq!(color_index(4), 5);
    assert_eq!(color_index(5), 0);
    assert_eq!(color_index(11), 0);
}
