//! The line-following task's per-tick decision: obstacle gate, sensor
//! fusion, then the PID controller.
//!
//! Each tick receives the latest distance taken from the mailbox and the raw
//! sensor readings.  An obstacle at or inside the safety threshold halts the
//! drive before any steering is computed; a distance inside the approach
//! band (six fifths of the threshold) trims the base speed to five sixths.
//! Either halt leaves the controller state frozen, not reset.
use crate::line_sensor::LinePosition;
use crate::line_sensor::centroid_deviation_milli;
use crate::line_sensor::count_active;
use crate::line_sensor::line_position;
use crate::pid::PidController;
use crate::pid::SCALE_LIMIT_MILLI;
use crate::pid::attenuation_milli;
use crate::pid::correction_milli;
use crate::pid::integral_next;
use crate::pid::wheel_milli;
use vstd::prelude::*;

verus! {

/// What the steering task does with one tick.
#[derive(Debug, Clone, Copy, PartialEq, Eq, Structural)]
pub enum FollowCommand {
    /// An obstacle sits at or inside the safety threshold: stop both motors.
    HaltObstacle,
    /// Every sensor sees the line: stop both motors.
    HaltNoLine,
    /// Differential speeds for the left and right motor, in milli-units.
    Drive { left_milli: i64, right_milli: i64 },
}

/// The base speed after the approach band: trimmed to five sixths when the
/// obstacle is within six fifths of the threshold, full otherwise.
pub open spec fn gated_speed_milli(base: int, distance_mm: int, threshold_mm: int) -> int {
    if distance_mm <= (threshold_mm * 6) / 5 {
        (base * 5) / 6
    } else {
        base
    }
}

/// The deviation the controller is fed: the centroid when any sensor is
/// active, else the previously held deviation (gap extrapolation).
pub open spec fn fused_deviation_milli(s: Seq<bool>, prev: int) -> int {
    if count_active(s) == 0 {
        prev
    } else {
        centroid_deviation_milli(s)
    }
}

/// One tick of the line-following task.
///
/// `distance_mm` is the latest obstacle distance, `active` the raw
/// polarity-corrected sensor readings, `threshold_mm` the safety threshold
/// and `base_speed_milli` the deployment's base speed.  At or inside the
/// threshold the command is `HaltObstacle`; with the whole array active it
/// is `HaltNoLine`; both leave the controller untouched.  Otherwise the
/// fused deviation drives one PID tick at the gated speed.
pub fn follow_line_tick(
    controller: &mut PidController,
    active: &Vec<bool>,
    distance_mm: u64,
    threshold_mm: u64,
    base_speed_milli: i64,
) -> (cmd: FollowCommand)
    requires
        old(controller).wf(),
        1 <= active@.len() <= 2001,
        0 <= base_speed_milli <= SCALE_LIMIT_MILLI,
        threshold_mm <= 0xffff_ffff,
    ensures
        final(controller).wf(),
        final(controller).gains == old(controller).gains,
        distance_mm <= threshold_mm ==> cmd == FollowCommand::HaltObstacle && *final(controller)
            == *old(controller),
        distance_mm > threshold_mm && count_active(active@) == active@.len() ==> cmd
            == FollowCommand::HaltNoLine && *final(controller) == *old(controller),
        distance_mm > threshold_mm && count_active(active@) < active@.len() ==> {
            let speed = gated_speed_milli(
                base_speed_milli as int,
                distance_mm as int,
                threshold_mm as int,
            );
            let d = fused_deviation_milli(
                active@,
                old(controller).previous_deviation_milli as int,
            );
            let next_integral = integral_next(
                old(controller).integral_milli as int,
                d,
                speed,
            );
            let correction = correction_milli(
                old(controller).gains,
                next_integral,
                d,
                old(controller).previous_deviation_milli as int,
            );
            let attenuation = attenuation_milli(old(controller).gains, d);
            &&& final(controller).integral_milli == next_integral
            &&& final(controller).previous_deviation_milli == d
            &&& cmd == (FollowCommand::Drive {
                left_milli: wheel_milli(speed, speed - correction, attenuation) as i64,
                right_milli: wheel_milli(speed, speed + correction, attenuation) as i64,
            })
        },
{
    if distance_mm <= threshold_mm {
        return FollowCommand::HaltObstacle;
    }
    let the_speed: i64 = if distance_mm <= (threshold_mm * 6) / 5 {
        (((base_speed_milli as u64) * 5) / 6) as i64
    } else {
        base_speed_milli
    };
    let position = line_position(active, controller.previous_deviation_milli);
    match position {
        LinePosition::NoLine => FollowCommand::HaltNoLine,
        LinePosition::Deviation(_) => {
            proof {
                crate::line_sensor::lemma_count_active_le_len(active@);
                if 0 < count_active(active@) < active@.len() {
                    crate::line_sensor::lemma_centroid_deviation_bounded(active@);
                }
            }
            let cmd = controller.tick(position, the_speed);
            match cmd {
                crate::pid::DriveCommand::Halt => {
                    // tick only halts on NoLine, which this arm excludes
                    proof {
                        assert(false);
                    }
                    FollowCommand::HaltNoLine
                },
                crate::pid::DriveCommand::Drive { left_milli, right_milli } => {
                    FollowCommand::Drive { left_milli, right_milli }
                },
            }
        },
    }
}

} // verus!
