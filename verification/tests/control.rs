use nonempty::NonEmpty;
use t2fand::config::{FanConfig, SpeedCurve};
use t2fand::control::{ControlLoop, LoopState, ACTIVE_PAUSE_MILLIS, IDLE_PAUSE_MILLIS};
use t2fand::error::Error;
use t2fand::fan_controller::{FanController, FileWrite};

fn fans() -> NonEmpty<FanController> {
    let linear = FanConfig { low_temp: 50, high_temp: 70, speed_curve: SpeedCurve::Linear, always_full_speed: false };
    let cubic = FanConfig { speed_curve: SpeedCurve::Exponential, ..linear };
    NonEmpty::from_vec(vec![
        FanController::new("/fans/fan1", linear, 1000, 6000, Vec::new()).unwrap(),
        FanController::new("/fans/fan2", cubic, 1000, 6000, Vec::new()).unwrap(),
    ])
    .unwrap()
}

fn write(path: &str, contents: &str) -> FileWrite {
    FileWrite { path: path.to_string(), contents: contents.to_string() }
}

#[test]
fn pauses_are_a_tenth_and_a_whole_second() {
    assert_eq!(ACTIVE_PAUSE_MILLIS, 100);
    assert_eq!(IDLE_PAUSE_MILLIS, 1000);
}

#[test]
fn loop_starts_running() {
    let control = ControlLoop::new(50).unwrap();
    assert_eq!(control.current_state(), LoopState::Running);
    assert!(ControlLoop::new(0).is_none());
    assert!(ControlLoop::new(51).is_none());
}

#[test]
fn changed_mean_sets_every_fan() {
    let fans = fans();
    let mut control = ControlLoop::new(3).unwrap();
    assert!(control.poll(false));
    let plan = control.on_sample(&fans, 60, None);
    assert_eq!(plan.writes, vec![write("/fans/fan1_output", "3500"), write("/fans/fan2_output", "1625")]);
    assert_eq!(plan.pause_millis, 100);
}

#[test]
fn unchanged_mean_writes_nothing() {
    let fans = fans();
    let mut control = ControlLoop::new(3).unwrap();
    control.on_sample(&fans, 60, None);
    let plan = control.on_sample(&fans, 60, Some(60));
    assert!(plan.writes.is_empty());
    assert_eq!(plan.pause_millis, 1000);
    let plan = control.on_sample(&fans, 61, Some(59));
    assert!(plan.writes.is_empty());
    assert_eq!(plan.pause_millis, 1000);
}

#[test]
fn first_mean_of_zero_counts_as_unchanged() {
    let fans = fans();
    let mut control = ControlLoop::new(3).unwrap();
    let plan = control.on_sample(&fans, 0, None);
    assert!(plan.writes.is_empty());
    assert_eq!(plan.pause_millis, 1000);
}

#[test]
fn hotter_source_enters_the_window() {
    let fans = fans();
    let mut control = ControlLoop::new(1).unwrap();
    let plan = control.on_sample(&fans, 40, Some(65));
    assert_eq!(plan.writes[0], write("/fans/fan1_output", "4750"));
    let plan = control.on_sample(&fans, 55, Some(20));
    assert_eq!(plan.writes[0], write("/fans/fan1_output", "2250"));
}

#[test]
fn window_smooths_the_samples() {
    let fans = fans();
    let mut control = ControlLoop::new(3).unwrap();
    assert_eq!(control.on_sample(&fans, 10, None).writes[0].contents, "1000");
    // mean of 10 and 20
    assert_eq!(control.on_sample(&fans, 20, None).writes[0].contents, "1000");
    // mean of 10, 20, 30
    assert_eq!(control.on_sample(&fans, 30, None).writes[0].contents, "1000");
    // mean of 20, 30, 60 is 36
    let plan = control.on_sample(&fans, 60, None);
    assert_eq!(plan.writes[0].contents, "1000");
    // mean of 30, 60, 90 is 60
    let plan = control.on_sample(&fans, 90, None);
    assert_eq!(plan.writes, vec![write("/fans/fan1_output", "3500"), write("/fans/fan2_output", "1625")]);
}

#[test]
fn cancellation_stops_sampling_and_hands_every_fan_back_once() {
    let fans = fans();
    let mut control = ControlLoop::new(5).unwrap();
    assert!(control.poll(false));
    control.on_sample(&fans, 60, None);
    assert!(!control.poll(true));
    assert_eq!(control.current_state(), LoopState::ShuttingDown);
    assert!(!control.poll(false));
    let plan = control.on_sample(&fans, 90, None);
    assert!(plan.writes.is_empty());
    assert_eq!(plan.pause_millis, 0);
    let restore = control.shut_down(&fans);
    assert_eq!(restore, vec![write("/fans/fan1_manual", "0"), write("/fans/fan2_manual", "0")]);
    assert_eq!(control.current_state(), LoopState::Terminated);
    assert!(control.shut_down(&fans).is_empty());
    assert!(!control.poll(false));
    assert!(control.on_sample(&fans, 90, None).writes.is_empty());
    assert_eq!(control.outcome(&vec![Ok(()), Ok(())]), Ok(()));
}

#[test]
fn running_loop_hands_no_fan_back() {
    let fans = fans();
    let mut control = ControlLoop::new(5).unwrap();
    assert!(control.shut_down(&fans).is_empty());
    assert_eq!(control.current_state(), LoopState::Running);
    assert!(control.poll(false));
}

#[test]
fn failure_shuts_the_loop_down() {
    let fans = fans();
    let mut control = ControlLoop::new(5).unwrap();
    control.fail(Error::TempRead);
    assert_eq!(control.current_state(), LoopState::ShuttingDown);
    assert!(!control.poll(false));
    control.fail(Error::FanWrite);
    assert_eq!(control.shut_down(&fans).len(), 2);
    assert_eq!(control.outcome(&vec![Ok(()), Ok(())]), Err(Error::TempRead));
}

#[test]
fn loop_failure_comes_before_cleanup_failure() {
    let mut control = ControlLoop::new(5).unwrap();
    control.fail(Error::TempParse);
    assert_eq!(control.outcome(&vec![Err(Error::FanWrite), Err(Error::PidDelete)]), Err(Error::TempParse));
}

#[test]
fn first_cleanup_failure_is_reported() {
    let mut control = ControlLoop::new(5).unwrap();
    control.poll(true);
    assert_eq!(control.outcome(&vec![]), Ok(()));
    assert_eq!(control.outcome(&vec![Ok(()), Err(Error::FanWrite), Err(Error::PidDelete)]), Err(Error::FanWrite));
    assert_eq!(control.outcome(&vec![Ok(()), Ok(()), Err(Error::PidDelete)]), Err(Error::PidDelete));
}

#[test]
fn failure_after_cancellation_is_not_recorded() {
    let mut control = ControlLoop::new(5).unwrap();
    control.poll(true);
    control.fail(Error::TempSeek);
    assert_eq!(control.outcome(&vec![]), Ok(()));
}
