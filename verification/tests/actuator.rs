use t2fand::config::{FanConfig, SpeedCurve};
use t2fand::error::Error;
use t2fand::fan_controller::{parse_max_speed, parse_min_speed, FanController, FileWrite};

fn fan() -> FanController {
    let config = FanConfig { low_temp: 50, high_temp: 70, speed_curve: SpeedCurve::Linear, always_full_speed: false };
    FanController::new("/sys/devices/APP0001:00/fan1", config, 1000, 6000, Vec::new()).unwrap()
}

fn write(path: &str, contents: &str) -> FileWrite {
    FileWrite { path: path.to_string(), contents: contents.to_string() }
}

#[test]
fn set_speed_clamps_into_the_bounds() {
    let f = fan();
    let out = "/sys/devices/APP0001:00/fan1_output";
    assert_eq!(f.set_speed(0), write(out, "1000"));
    assert_eq!(f.set_speed(999), write(out, "1000"));
    assert_eq!(f.set_speed(1000), write(out, "1000"));
    assert_eq!(f.set_speed(3500), write(out, "3500"));
    assert_eq!(f.set_speed(6000), write(out, "6000"));
    assert_eq!(f.set_speed(6001), write(out, "6000"));
    assert_eq!(f.set_speed(u32::MAX), write(out, "6000"));
}

#[test]
fn set_speed_writes_plain_decimal() {
    let config = FanConfig { low_temp: 1, high_temp: 2, speed_curve: SpeedCurve::Linear, always_full_speed: false };
    let f = FanController::new("fan2", config, 0, u32::MAX, Vec::new()).unwrap();
    assert_eq!(f.set_speed(0).contents, "0");
    assert_eq!(f.set_speed(7).contents, "7");
    assert_eq!(f.set_speed(10).contents, "10");
    assert_eq!(f.set_speed(4294967295).contents, "4294967295");
    assert_eq!(f.set_speed(1).path, "fan2_output");
}

#[test]
fn set_manual_writes_one_or_zero() {
    let f = fan();
    assert_eq!(f.set_manual(true), write("/sys/devices/APP0001:00/fan1_manual", "1"));
    assert_eq!(f.set_manual(false), write("/sys/devices/APP0001:00/fan1_manual", "0"));
}

#[test]
fn min_speed_ignores_white_space_at_both_ends() {
    assert_eq!(parse_min_speed("1000"), Ok(1000));
    assert_eq!(parse_min_speed("1000\n"), Ok(1000));
    assert_eq!(parse_min_speed(" \t1000 \n"), Ok(1000));
    assert_eq!(parse_min_speed("\u{a0}12\u{2003}"), Ok(12));
    assert_eq!(parse_min_speed("+5"), Ok(5));
    assert_eq!(parse_min_speed("007"), Ok(7));
    assert_eq!(parse_min_speed("4294967295"), Ok(u32::MAX));
}

#[test]
fn min_speed_must_be_a_number() {
    for bad in ["", " ", "\n", "abc", "-1", "1 0", "1_000", "1.5", "+", "++1", "4294967296", "99999999999999999999", "١٢"] {
        assert_eq!(parse_min_speed(bad), Err(Error::MinSpeedParse), "{bad:?}");
    }
}

#[test]
fn max_speed_ignores_trailing_white_space_only() {
    assert_eq!(parse_max_speed("6000"), Ok(6000));
    assert_eq!(parse_max_speed("6000\n"), Ok(6000));
    assert_eq!(parse_max_speed("6000 \r\n"), Ok(6000));
    assert_eq!(parse_max_speed(" 6000"), Err(Error::MaxSpeedParse));
    assert_eq!(parse_max_speed("\n6000\n"), Err(Error::MaxSpeedParse));
}

#[test]
fn max_speed_must_be_a_number() {
    for bad in ["", "\n", "fast", "-6000", "60 00", "4294967296"] {
        assert_eq!(parse_max_speed(bad), Err(Error::MaxSpeedParse), "{bad:?}");
    }
}
