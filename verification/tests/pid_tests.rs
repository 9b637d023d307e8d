use clumsy_bot::line_sensor::LinePosition;
use clumsy_bot::pid::DriveCommand;
use clumsy_bot::pid::PidController;
use clumsy_bot::pid::PidGains;

fn unit_gains() -> PidGains {
    PidGains { kp_milli: 1000, ki_milli: 1000, kd_milli: 1000, ka_milli: 100 }
}

fn integral_only_gains() -> PidGains {
    PidGains { kp_milli: 0, ki_milli: 1000, kd_milli: 0, ka_milli: 0 }
}

#[test]
fn zero_deviation_drives_straight_at_base_speed() {
    let mut c = PidController::new(unit_gains());
    let cmd = c.tick(LinePosition::Deviation(0), 100_000);
    assert_eq!(cmd, DriveCommand::Drive { left_milli: 100_000, right_milli: 100_000 });
    assert_eq!(c.integral_milli, 0);
    assert_eq!(c.previous_deviation_milli, 0);
}

#[test]
fn tick_computes_exact_correction_and_attenuation() {
    // deviation 1.0: integral 1.0, derivative 1.0, correction 3.0,
    // attenuation 0.9; left (100 - 3) * 0.9 = 87.3, right clamped to 100
    // then attenuated to 90.0
    let mut c = PidController::new(unit_gains());
    let cmd = c.tick(LinePosition::Deviation(1000), 100_000);
    assert_eq!(cmd, DriveCommand::Drive { left_milli: 87_300, right_milli: 90_000 });
    assert_eq!(c.integral_milli, 1000);
    assert_eq!(c.previous_deviation_milli, 1000);
}

#[test]
fn no_line_halts_and_freezes_state() {
    let mut c = PidController::new(unit_gains());
    c.tick(LinePosition::Deviation(1000), 100_000);
    let integral = c.integral_milli;
    let prev = c.previous_deviation_milli;
    let cmd = c.tick(LinePosition::NoLine, 100_000);
    assert_eq!(cmd, DriveCommand::Halt);
    assert_eq!(c.integral_milli, integral);
    assert_eq!(c.previous_deviation_milli, prev);
}

#[test]
fn zero_deviation_keeps_integral_in_place() {
    let mut c = PidController::new(integral_only_gains());
    c.tick(LinePosition::Deviation(60_000), 100_000);
    assert_eq!(c.integral_milli, 60_000);
    for _ in 0..10 {
        c.tick(LinePosition::Deviation(0), 100_000);
        assert_eq!(c.integral_milli, 60_000);
    }
}

#[test]
fn constant_deviation_saturates_integral_at_base_speed() {
    let mut c = PidController::new(integral_only_gains());
    let base: i64 = 100_000;
    c.tick(LinePosition::Deviation(60_000), base);
    assert_eq!(c.integral_milli, 60_000);
    c.tick(LinePosition::Deviation(60_000), base);
    assert_eq!(c.integral_milli, base);  // 120_000 clamped to exactly base
    for _ in 0..5 {
        c.tick(LinePosition::Deviation(60_000), base);
        assert_eq!(c.integral_milli, base);  // pinned, never beyond
    }
}

#[test]
fn constant_negative_deviation_saturates_at_negative_base() {
    let mut c = PidController::new(integral_only_gains());
    let base: i64 = 100_000;
    for _ in 0..4 {
        c.tick(LinePosition::Deviation(-60_000), base);
        assert!(c.integral_milli >= -base);
    }
    assert_eq!(c.integral_milli, -base);
}

#[test]
fn wheel_speeds_stay_within_attenuated_base() {
    // a huge proportional gain forces the correction far past the base
    // speed; the clamp and the attenuation still bound both wheels
    let gains = PidGains { kp_milli: 1_000_000, ki_milli: 0, kd_milli: 0, ka_milli: 100 };
    let base: i64 = 100_000;
    for deviation in [-2000i64, -1000, -500, 0, 500, 1000, 2000] {
        let mut c = PidController::new(gains);
        let cmd = c.tick(LinePosition::Deviation(deviation), base);
        let attenuation = 1000 - (gains.ka_milli * deviation.abs()) / 1000;
        let bound = base * attenuation.abs() / 1000;
        match cmd {
            DriveCommand::Drive { left_milli, right_milli } => {
                assert!(left_milli.abs() <= bound);
                assert!(right_milli.abs() <= bound);
            },
            DriveCommand::Halt => panic!("a deviation tick must drive"),
        }
    }
}

#[test]
fn saturated_correction_pivots_within_base() {
    let gains = PidGains { kp_milli: 0, ki_milli: 1000, kd_milli: 0, ka_milli: 0 };
    let base: i64 = 100_000;
    let mut c = PidController::new(gains);
    c.tick(LinePosition::Deviation(60_000), base);
    c.tick(LinePosition::Deviation(60_000), base);
    // integral is pinned at base, so the correction equals the base speed:
    // the inner wheel stops, the outer wheel is clamped to base
    let cmd = c.tick(LinePosition::Deviation(0), base);
    assert_eq!(cmd, DriveCommand::Drive { left_milli: 0, right_milli: 100_000 });
}
