use deadreckon::series::TimeSeries;
use deadreckon::sim::{max_error_scan, vehicle_simulation, SimConfig};
use rand::rngs::StdRng;
use rand::SeedableRng;
use rand_distr::{Distribution, Normal};

#[test]
fn zero_noise_estimate_tracks_truth() {
    let cfg = SimConfig { cycle: 100, simtime: 1000, speed_ave: 1000 };
    let speed_noise = vec![0i64; 9];
    let sensor_noise = vec![0i64; 9];
    let out = vehicle_simulation(&cfg, &speed_noise, &sensor_noise);
    assert_eq!(out.x_true.length, 10);
    for step in 0..=out.x_true.curstep() {
        let xt = out.x_true.getvalue_bystep(step).unwrap();
        let xe = out.x_est.getvalue_bystep(step).unwrap();
        assert_eq!(xt, xe);
        // Deterministic integration: position grows one cycle * mean per step.
        assert_eq!(xt, (step as i64) * 100 * 1000);
    }
    assert_eq!(out.report.x_true_final, 900_000);
    assert_eq!(out.report.x_est_final, 900_000);
    assert_eq!(out.report.max_err, 0);
    assert_eq!(out.report.max_err_time, 0);
}

#[test]
fn known_noise_exact_report() {
    let cfg = SimConfig { cycle: 10, simtime: 40, speed_ave: 100 };
    let speed_noise = vec![10i64, -20, 30];
    let sensor_noise = vec![5i64, 5, 5];
    let out = vehicle_simulation(&cfg, &speed_noise, &sensor_noise);
    assert_eq!(out.x_true.length, 4);
    // True speeds 110, 80, 130; integrated with cycle 10.
    assert_eq!(out.spd_true.getvalue_bystep(1).unwrap(), 110);
    assert_eq!(out.spd_true.getvalue_bystep(2).unwrap(), 80);
    assert_eq!(out.spd_true.getvalue_bystep(3).unwrap(), 130);
    assert_eq!(out.x_true.getvalue_bystep(1).unwrap(), 1100);
    assert_eq!(out.x_true.getvalue_bystep(2).unwrap(), 1900);
    assert_eq!(out.x_true.getvalue_bystep(3).unwrap(), 3200);
    // Observed speeds 115, 85, 135.
    assert_eq!(out.x_est.getvalue_bystep(1).unwrap(), 1150);
    assert_eq!(out.x_est.getvalue_bystep(2).unwrap(), 2000);
    assert_eq!(out.x_est.getvalue_bystep(3).unwrap(), 3350);
    // Errors 0, 50, 100, 150: maximum 150, first reached at step 3, time 30.
    assert_eq!(out.report.x_true_final, 3200);
    assert_eq!(out.report.x_est_final, 3350);
    assert_eq!(out.report.max_err, 150);
    assert_eq!(out.report.max_err_time, 30);
}

#[test]
fn max_error_reports_first_occurrence() {
    let mut xt = TimeSeries::new(100, 300, 0);
    let mut xe = TimeSeries::new(100, 300, 0);
    xt.recordvalue(10).unwrap();
    xt.recordvalue(20).unwrap();
    xe.recordvalue(5).unwrap();
    xe.recordvalue(15).unwrap();
    // Errors by step: 0, 5, 5 — the maximum first occurs at step 1, time 100.
    assert_eq!(max_error_scan(&xt, &xe), (5, 100));
}

fn draw_noise(seed: u64, n: usize, std_dev: f64) -> Vec<i64> {
    let mut rng = StdRng::seed_from_u64(seed);
    let dist = Normal::new(0.0, std_dev).unwrap();
    (0..n)
        .map(|_| {
            let sample: f64 = dist.sample(&mut rng);
            let milli = (sample * 1000.0).round() as i64;
            milli.clamp(-1_000_000, 1_000_000)
        })
        .collect()
}

#[test]
fn fixed_seed_reports_reproduce() {
    let cfg = SimConfig { cycle: 100, simtime: 100_000, speed_ave: 1000 };
    let first_speed = draw_noise(7, 999, 0.1);
    let first_sensor = draw_noise(11, 999, 1.0);
    let second_speed = draw_noise(7, 999, 0.1);
    let second_sensor = draw_noise(11, 999, 1.0);
    assert_eq!(first_speed, second_speed);
    assert_eq!(first_sensor, second_sensor);
    let a = vehicle_simulation(&cfg, &first_speed, &first_sensor);
    let b = vehicle_simulation(&cfg, &second_speed, &second_sensor);
    assert_eq!(a.report, b.report);
    for step in 0..=a.x_true.curstep() {
        assert_eq!(
            a.x_true.getvalue_bystep(step).unwrap(),
            b.x_true.getvalue_bystep(step).unwrap()
        );
    }
}
