use t2fand::config::{FanConfig, SpeedCurve};
use t2fand::error::Error;
use t2fand::fan_controller::FanController;

fn config(curve: SpeedCurve, full: bool) -> FanConfig {
    FanConfig { low_temp: 50, high_temp: 70, speed_curve: curve, always_full_speed: full }
}

fn fan(curve: SpeedCurve, full: bool) -> FanController {
    FanController::new("/sys/fan1", config(curve, full), 1000, 6000, Vec::new()).unwrap()
}

fn log_table() -> Vec<u32> {
    (0..19u32).map(|t| t * 250).collect()
}

fn log_fan(full: bool) -> FanController {
    FanController::new("/sys/fan1", config(SpeedCurve::Logarithmic, full), 1000, 6000, log_table())
        .unwrap()
}

#[test]
fn linear_midpoint_is_half_the_span() {
    assert_eq!(fan(SpeedCurve::Linear, false).calc_speed(60), 3500);
}

#[test]
fn exponential_midpoint_is_an_eighth_of_the_span() {
    assert_eq!(fan(SpeedCurve::Exponential, false).calc_speed(60), 1625);
}

#[test]
fn linear_rounds_down() {
    // 7/20 of 5000 is 1750; 1/20 of 4999 is 249.95
    assert_eq!(fan(SpeedCurve::Linear, false).calc_speed(57), 2750);
    let odd = FanController::new("f", config(SpeedCurve::Linear, false), 1, 5000, Vec::new()).unwrap();
    assert_eq!(odd.calc_speed(51), 1 + 249);
}

#[test]
fn exponential_rounds_down() {
    // 1/8000 of 5000 is 0.625; 19^3/20^3 of 5000 is 4286.875
    let f = fan(SpeedCurve::Exponential, false);
    assert_eq!(f.calc_speed(51), 1000);
    assert_eq!(f.calc_speed(69), 1000 + 4286);
}

#[test]
fn logarithmic_follows_its_table() {
    let f = log_fan(false);
    assert_eq!(f.calc_speed(50), 1000);
    assert_eq!(f.calc_speed(51), 1000);
    assert_eq!(f.calc_speed(52), 1250);
    assert_eq!(f.calc_speed(60), 1000 + 9 * 250);
    assert_eq!(f.calc_speed(69), 1000 + 18 * 250);
    assert_eq!(f.calc_speed(70), 6000);
}

#[test]
fn full_speed_override_gives_the_maximum_at_every_temperature() {
    for curve in [SpeedCurve::Linear, SpeedCurve::Exponential] {
        let f = fan(curve, true);
        for temp in 0..=255u8 {
            assert_eq!(f.calc_speed(temp), 6000);
        }
    }
    let f = log_fan(true);
    for temp in 0..=255u8 {
        assert_eq!(f.calc_speed(temp), 6000);
    }
}

#[test]
fn thresholds_give_the_bounds() {
    for curve in [SpeedCurve::Linear, SpeedCurve::Exponential] {
        let f = fan(curve, false);
        assert_eq!(f.calc_speed(0), 1000);
        assert_eq!(f.calc_speed(49), 1000);
        assert_eq!(f.calc_speed(50), 1000);
        assert_eq!(f.calc_speed(70), 6000);
        assert_eq!(f.calc_speed(71), 6000);
        assert_eq!(f.calc_speed(255), 6000);
    }
}

#[test]
fn every_curve_is_monotonic_and_within_bounds() {
    let fans = [fan(SpeedCurve::Linear, false), fan(SpeedCurve::Exponential, false), log_fan(false)];
    for f in &fans {
        let mut last = 0;
        for temp in 0..=255u8 {
            let speed = f.calc_speed(temp);
            assert!(speed >= last);
            assert!((1000..=6000).contains(&speed));
            last = speed;
        }
    }
}

#[test]
fn widest_fan_does_not_overflow() {
    let wide = FanConfig { low_temp: 0, high_temp: 255, speed_curve: SpeedCurve::Exponential, always_full_speed: false };
    let f = FanController::new("f", wide, 0, u32::MAX, Vec::new()).unwrap();
    assert_eq!(f.calc_speed(0), 0);
    assert_eq!(f.calc_speed(255), u32::MAX);
    let expected = (254u64 * 254 * 254 * u32::MAX as u64 / (255u64 * 255 * 255)) as u32;
    assert_eq!(f.calc_speed(254), expected);
    let line = FanConfig { speed_curve: SpeedCurve::Linear, ..wide };
    let f = FanController::new("f", line, 0, u32::MAX, Vec::new()).unwrap();
    assert_eq!(f.calc_speed(254), (254u64 * u32::MAX as u64 / 255) as u32);
}

#[test]
fn adjacent_thresholds_have_no_ramp() {
    let tight = FanConfig { low_temp: 50, high_temp: 51, speed_curve: SpeedCurve::Logarithmic, always_full_speed: false };
    let f = FanController::new("f", tight, 10, 20, Vec::new()).unwrap();
    assert_eq!(f.calc_speed(50), 10);
    assert_eq!(f.calc_speed(51), 20);
}

#[test]
fn thresholds_out_of_order_are_refused() {
    let equal = FanConfig { low_temp: 60, high_temp: 60, speed_curve: SpeedCurve::Linear, always_full_speed: false };
    assert_eq!(
        FanController::new("f", equal, 1000, 6000, Vec::new()).err(),
        Some(Error::InvalidConfigValue("high_temp"))
    );
    let swapped = FanConfig { low_temp: 70, high_temp: 50, ..equal };
    assert_eq!(
        FanController::new("f", swapped, 6000, 1000, Vec::new()).err(),
        Some(Error::InvalidConfigValue("high_temp"))
    );
    assert!(!equal.is_valid());
    assert!(config(SpeedCurve::Linear, false).is_valid());
}

#[test]
fn bounds_out_of_order_are_refused() {
    assert_eq!(
        FanController::new("f", config(SpeedCurve::Linear, false), 6000, 1000, Vec::new()).err(),
        Some(Error::InvalidSpeedRange)
    );
    assert!(FanController::new("f", config(SpeedCurve::Linear, false), 1000, 1000, Vec::new()).is_ok());
}

#[test]
fn log_table_must_fit() {
    let c = config(SpeedCurve::Logarithmic, false);
    let new = |table: Vec<u32>| FanController::new("f", c, 1000, 6000, table).err();
    assert_eq!(new(Vec::new()), Some(Error::InvalidLogCurve));
    assert_eq!(new(vec![0; 18]), Some(Error::InvalidLogCurve));
    assert_eq!(new(vec![0; 20]), Some(Error::InvalidLogCurve));
    assert_eq!(new(vec![0; 19]), None);
    assert_eq!(new(vec![5000; 19]), Some(Error::InvalidLogCurve));
    let mut steep = vec![5000; 19];
    steep[0] = 0;
    assert_eq!(new(steep), None);
    let mut above = vec![0; 19];
    above[18] = 5001;
    assert_eq!(new(above), Some(Error::InvalidLogCurve));
    let mut falling = log_table();
    falling[7] = falling[6] - 1;
    assert_eq!(new(falling), Some(Error::InvalidLogCurve));
}

#[test]
fn other_curves_leave_the_table_aside() {
    let f = FanController::new("f", config(SpeedCurve::Linear, false), 1000, 6000, vec![9, 1]).unwrap();
    assert_eq!(f.calc_speed(60), 3500);
}
