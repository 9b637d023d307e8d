use clumsy_bot::motor::Direction;
use clumsy_bot::motor::Motor;
use clumsy_bot::semafor::SemaforPhase;
use clumsy_bot::servo::Servo;

#[test]
fn motor_new_hands_over_idle() {
    let m = Motor::new(0, Direction::Forward);
    assert_eq!(m.get_speed(), 0);
    assert_eq!(m.duty_percent, 0);
    assert!(!m.forward_high);
    assert!(!m.backward_high);
}

#[test]
fn motor_run_forward_sets_pins_and_duty() {
    let mut m = Motor::new(0, Direction::Forward);
    m.run(50);
    assert_eq!(m.get_speed(), 50);
    assert_eq!(m.get_dir(), Direction::Forward);
    assert!(m.forward_high);
    assert!(!m.backward_high);
    assert_eq!(m.duty_percent, 50);
}

#[test]
fn motor_run_negative_reverses() {
    let mut m = Motor::new(0, Direction::Forward);
    m.run(-30);
    assert_eq!(m.get_speed(), 30);
    assert_eq!(m.get_dir(), Direction::Backward);
    assert!(!m.forward_high);
    assert!(m.backward_high);
    assert_eq!(m.duty_percent, 30);
}

#[test]
fn motor_run_clamps_to_hundred() {
    let mut m = Motor::new(0, Direction::Forward);
    m.run(150);
    assert_eq!(m.get_speed(), 100);
    assert_eq!(m.duty_percent, 100);
    m.run(-32768);
    assert_eq!(m.get_speed(), 100);
    assert_eq!(m.get_dir(), Direction::Backward);
    assert_eq!(m.duty_percent, 100);
}

#[test]
fn motor_stop_fails_safe() {
    let mut m = Motor::new(0, Direction::Forward);
    m.run(80);
    m.stop();
    assert_eq!(m.get_speed(), 0);
    assert_eq!(m.duty_percent, 0);
    assert!(!m.forward_high);
    assert!(m.backward_high);
    // stop leaves the direction field as it was
    assert_eq!(m.get_dir(), Direction::Forward);
}

#[test]
fn motor_set_dir_only_changes_direction() {
    let mut m = Motor::new(25, Direction::Forward);
    m.set_dir(Direction::Backward);
    assert_eq!(m.get_dir(), Direction::Backward);
    assert_eq!(m.get_speed(), 25);
}

#[test]
fn servo_duty_is_linear_in_angle() {
    // 20 ms period, 180 degree range, 16-bit duty: floor 65535/40 = 1638
    let mut s = Servo::new(20, 180, 65535);
    assert_eq!(s.set_angle(0), 1638);
    assert_eq!(s.set_angle(45), 3276);
    assert_eq!(s.set_angle(90), 4914);
    assert_eq!(s.set_angle(180), 8190);
    assert_eq!(s.duty_cycle, 8190);
}

#[test]
fn servo_clamps_to_mechanical_limit() {
    let mut s = Servo::new(20, 180, 65535);
    assert_eq!(s.set_angle(270), s.set_angle(180));
}

#[test]
fn servo_duty_division_truncates() {
    let mut s = Servo::new(20, 180, 65535);
    // one degree: 1638 + 3276/90 = 1638 + 36 (36.4 truncated)
    assert_eq!(s.set_angle(1), 1674);
}

#[test]
fn semafor_cycle_walks_all_phases() {
    let mut phase = SemaforPhase::Red;
    assert_eq!(phase.lamps().red, true);
    assert_eq!(phase.hold_millis(), 5000);

    phase = phase.next();
    assert_eq!(phase, SemaforPhase::Yellow);
    assert_eq!(phase.lamps().yellow, true);
    assert_eq!(phase.hold_millis(), 3000);

    for flash in 0..5u8 {
        phase = phase.next();
        assert_eq!(phase, SemaforPhase::FlashOn { flash });
        assert!(phase.lamps().yellow);
        assert_eq!(phase.hold_millis(), 125);
        phase = phase.next();
        assert_eq!(phase, SemaforPhase::FlashOff { flash });
        assert!(!phase.lamps().yellow);
        assert_eq!(phase.hold_millis(), 125);
    }

    phase = phase.next();
    assert_eq!(phase, SemaforPhase::Green);
    assert!(phase.lamps().green);
    assert_eq!(phase.hold_millis(), 5000);

    phase = phase.next();
    assert_eq!(phase, SemaforPhase::AllOff);
    let lamps = phase.lamps();
    assert!(!lamps.red && !lamps.yellow && !lamps.green);
    assert_eq!(phase.hold_millis(), 0);

    phase = phase.next();
    assert_eq!(phase, SemaforPhase::Red);
}
