use clumsy_bot::follow::FollowCommand;
use clumsy_bot::follow::follow_line_tick;
use clumsy_bot::pid::PidController;
use clumsy_bot::pid::PidGains;

const THRESHOLD_MM: u64 = 180;
const BASE_MILLI: i64 = 100_000;

fn controller() -> PidController {
    PidController::new(PidGains { kp_milli: 1000, ki_milli: 1000, kd_milli: 1000, ka_milli: 100 })
}

#[test]
fn obstacle_at_threshold_halts_and_freezes() {
    let mut c = controller();
    let mid = vec![false, false, true, false, false];
    let cmd = follow_line_tick(&mut c, &mid, THRESHOLD_MM, THRESHOLD_MM, BASE_MILLI);
    assert_eq!(cmd, FollowCommand::HaltObstacle);
    assert_eq!(c.integral_milli, 0);
    assert_eq!(c.previous_deviation_milli, 0);
}

#[test]
fn full_array_halts_on_no_line() {
    let mut c = controller();
    let all = vec![true, true, true, true, true];
    let cmd = follow_line_tick(&mut c, &all, 500, THRESHOLD_MM, BASE_MILLI);
    assert_eq!(cmd, FollowCommand::HaltNoLine);
    assert_eq!(c.integral_milli, 0);
}

#[test]
fn clear_road_and_centered_line_drive_at_base() {
    let mut c = controller();
    let mid = vec![false, false, true, false, false];
    let cmd = follow_line_tick(&mut c, &mid, 500, THRESHOLD_MM, BASE_MILLI);
    assert_eq!(cmd, FollowCommand::Drive { left_milli: BASE_MILLI, right_milli: BASE_MILLI });
}

#[test]
fn approach_band_trims_speed_to_five_sixths() {
    // 20 cm is above the 18 cm threshold but inside its six fifths
    // (21.6 cm), so the base speed 100.0 becomes 83.333
    let mut c = controller();
    let mid = vec![false, false, true, false, false];
    let cmd = follow_line_tick(&mut c, &mid, 200, THRESHOLD_MM, BASE_MILLI);
    assert_eq!(cmd, FollowCommand::Drive { left_milli: 83_333, right_milli: 83_333 });
}

#[test]
fn gap_in_line_steers_by_held_deviation() {
    let mut c = controller();
    // a tick on an off-center line leaves a held deviation ...
    let off = vec![false, true, false, false, false];
    follow_line_tick(&mut c, &off, 500, THRESHOLD_MM, BASE_MILLI);
    assert_eq!(c.previous_deviation_milli, 1000);
    // ... and a gap (nothing active) steers by it again
    let gap = vec![false, false, false, false, false];
    let with_gap = follow_line_tick(&mut c, &gap, 500, THRESHOLD_MM, BASE_MILLI);
    assert_eq!(c.previous_deviation_milli, 1000);
    // the same deviation fed twice in a row: the derivative term drops
    // out, the integral grows by the deviation
    assert_eq!(c.integral_milli, 2000);
    match with_gap {
        FollowCommand::Drive { .. } => {},
        _ => panic!("a gap must keep driving"),
    }
}
