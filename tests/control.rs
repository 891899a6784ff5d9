use conway_life::control::{Command, Controls, INITIAL_SPEED, SPEED_STEP};

#[test]
fn starts_running_at_initial_speed() {
    let c = Controls::new();
    assert!(!c.paused);
    assert_eq!(c.speed, INITIAL_SPEED);
    assert_eq!(c.generation, 0);
    assert!(c.should_step());
}

#[test]
fn pause_and_single_step() {
    let mut c = Controls::new();
    assert!(!c.apply(Command::TogglePause));
    assert!(c.paused);
    assert!(!c.should_step());
    assert!(!c.apply(Command::StepOnce));
    assert!(c.should_step());
    c.record_step();
    assert_eq!(c.generation, 1);
    assert!(!c.should_step());
    c.apply(Command::TogglePause);
    assert!(c.should_step());
}

#[test]
fn reset_zeroes_generation() {
    let mut c = Controls::new();
    c.record_step();
    c.record_step();
    assert_eq!(c.generation, 2);
    assert!(c.apply(Command::Reset));
    assert_eq!(c.generation, 0);
}

#[test]
fn speed_has_a_floor() {
    let mut c = Controls::new();
    for _ in 0..10 {
        c.apply(Command::SpeedUp);
    }
    assert_eq!(c.speed, SPEED_STEP);
    c.apply(Command::SpeedDown);
    assert_eq!(c.speed, 2 * SPEED_STEP);
    c.speed = u64::MAX - 5;
    c.apply(Command::SpeedDown);
    assert_eq!(c.speed, u64::MAX);
}

#[test]
fn generation_saturates() {
    let mut c = Controls::new();
    c.generation = u64::MAX;
    c.record_step();
    assert_eq!(c.generation, u64::MAX);
}
