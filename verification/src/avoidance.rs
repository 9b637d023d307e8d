//! Obstacle-avoidance state machine for the roaming deployment.
//!
//! The controller cruises until a distance sample falls below the safety
//! threshold, then halts, scans left and right with the ranging servo,
//! decides a maneuver from the two recorded samples, holds the turn for a
//! fixed duration and resumes cruising.  Scan-left strictly precedes
//! scan-right strictly precedes the decision.  The surrounding task owns the
//! motors and the servo for its whole lifetime; this module only decides.
//!
//! Side naming: the left sample is the one taken with the servo at its
//! left-most angle.  Ties between two open sides turn left.
use vstd::prelude::*;

verus! {

/// The maneuver chosen after a scan.
#[derive(Debug, Clone, Copy, PartialEq, Eq, Structural)]
pub enum Maneuver {
    /// Both sides blocked: back away.
    Reverse,
    /// Pivot toward the left (left motor backward, right forward).
    TurnLeft,
    /// Pivot toward the right (left motor forward, right backward).
    TurnRight,
}

/// Where the avoidance controller stands in its scan-and-decide episode.
#[derive(Debug, Clone, Copy, PartialEq, Eq, Structural)]
pub enum AvoidancePhase {
    /// Driving forward, watching the distance channel.
    Cruise,
    /// Servo at the left-most angle, settling, waiting for a sample.
    ScanningLeft,
    /// Left sample recorded; servo at the right-most angle, settling.
    ScanningRight { left_mm: u64 },
    /// Both samples recorded; the comparison is next.
    Deciding { left_mm: u64, right_mm: u64 },
    /// Holding the chosen maneuver for the fixed turn duration.
    Turning { plan: Maneuver },
}

/// What drives a transition: a distance sample taken from the mailbox, or
/// the end of a fixed delay (settle or turn duration).
#[derive(Debug, Clone, Copy, PartialEq, Eq, Structural)]
pub enum AvoidanceEvent {
    Sample { distance_mm: u64 },
    Elapsed,
}

/// What the surrounding task must do after a transition.
#[derive(Debug, Clone, Copy, PartialEq, Eq, Structural)]
pub enum AvoidanceAction {
    /// Drive both motors forward at the base speed.
    DriveForward,
    /// Stop both motors and point the servo at its left-most angle.
    HaltAndAimLeft,
    /// Point the servo at its right-most angle.
    AimRight,
    /// Begin the chosen maneuver and start the turn timer.
    Steer(Maneuver),
    /// Re-center the servo and resume cruising.
    Recenter,
    /// Nothing: the event does not concern the current phase.
    Hold,
}

/// The decision table: both samples below the threshold means blocked on
/// both sides, so reverse; otherwise turn toward the side with the larger
/// recorded distance, ties toward the left.
pub open spec fn decide_spec(left_mm: u64, right_mm: u64, threshold_mm: u64) -> Maneuver {
    if left_mm < threshold_mm && right_mm < threshold_mm {
        Maneuver::Reverse
    } else if left_mm >= right_mm {
        Maneuver::TurnLeft
    } else {
        Maneuver::TurnRight
    }
}

/// The phase after one event.
pub open spec fn phase_step(p: AvoidancePhase, threshold_mm: u64, ev: AvoidanceEvent) -> AvoidancePhase {
    match (p, ev) {
        (AvoidancePhase::Cruise, AvoidanceEvent::Sample { distance_mm }) => {
            if distance_mm < threshold_mm {
                AvoidancePhase::ScanningLeft
            } else {
                AvoidancePhase::Cruise
            }
        },
        (AvoidancePhase::ScanningLeft, AvoidanceEvent::Sample { distance_mm }) => {
            AvoidancePhase::ScanningRight { left_mm: distance_mm }
        },
        (AvoidancePhase::ScanningRight { left_mm }, AvoidanceEvent::Sample { distance_mm }) => {
            AvoidancePhase::Deciding { left_mm, right_mm: distance_mm }
        },
        (AvoidancePhase::Deciding { left_mm, right_mm }, _) => {
            AvoidancePhase::Turning { plan: decide_spec(left_mm, right_mm, threshold_mm) }
        },
        (AvoidancePhase::Turning { .. }, AvoidanceEvent::Elapsed) => AvoidancePhase::Cruise,
        (q, _) => q,
    }
}

/// The action commanded by one event.
pub open spec fn action_step(p: AvoidancePhase, threshold_mm: u64, ev: AvoidanceEvent) -> AvoidanceAction {
    match (p, ev) {
        (AvoidancePhase::Cruise, AvoidanceEvent::Sample { distance_mm }) => {
            if distance_mm < threshold_mm {
                AvoidanceAction::HaltAndAimLeft
            } else {
                AvoidanceAction::DriveForward
            }
        },
        (AvoidancePhase::ScanningLeft, AvoidanceEvent::Sample { .. }) => AvoidanceAction::AimRight,
        (AvoidancePhase::ScanningRight { .. }, AvoidanceEvent::Sample { .. }) => AvoidanceAction::Hold,
        (AvoidancePhase::Deciding { left_mm, right_mm }, _) => {
            AvoidanceAction::Steer(decide_spec(left_mm, right_mm, threshold_mm))
        },
        (AvoidancePhase::Turning { .. }, AvoidanceEvent::Elapsed) => AvoidanceAction::Recenter,
        (_, _) => AvoidanceAction::Hold,
    }
}

/// The avoidance controller: its phase and the deployment's safety
/// threshold.
pub struct AvoidanceController {
    pub phase: AvoidancePhase,
    pub threshold_mm: u64,
}

impl AvoidanceController {
    /// A controller that starts out cruising.
    pub fn new(threshold_mm: u64) -> (c: AvoidanceController)
        ensures
            c.phase == AvoidancePhase::Cruise,
            c.threshold_mm == threshold_mm,
    {
        AvoidanceController { phase: AvoidancePhase::Cruise, threshold_mm }
    }

    /// Feeds one event through the state machine and returns the action the
    /// owning task must perform.  Every phase-event pair is defined; an
    /// event that does not concern the phase changes nothing and commands
    /// `Hold`.
    pub fn step(&mut self, ev: AvoidanceEvent) -> (action: AvoidanceAction)
        ensures
            final(self).threshold_mm == old(self).threshold_mm,
            final(self).phase == phase_step(old(self).phase, old(self).threshold_mm, ev),
            action == action_step(old(self).phase, old(self).threshold_mm, ev),
    {
        match (self.phase, ev) {
            (AvoidancePhase::Cruise, AvoidanceEvent::Sample { distance_mm }) => {
                if distance_mm < self.threshold_mm {
                    self.phase = AvoidancePhase::ScanningLeft;
                    AvoidanceAction::HaltAndAimLeft
                } else {
                    AvoidanceAction::DriveForward
                }
            },
            (AvoidancePhase::ScanningLeft, AvoidanceEvent::Sample { distance_mm }) => {
                self.phase = AvoidancePhase::ScanningRight { left_mm: distance_mm };
                AvoidanceAction::AimRight
            },
            (AvoidancePhase::ScanningRight { left_mm }, AvoidanceEvent::Sample { distance_mm }) => {
                self.phase = AvoidancePhase::Deciding { left_mm, right_mm: distance_mm };
                AvoidanceAction::Hold
            },
            (AvoidancePhase::Deciding { left_mm, right_mm }, _) => {
                let plan = decide(left_mm, right_mm, self.threshold_mm);
                self.phase = AvoidancePhase::Turning { plan };
                AvoidanceAction::Steer(plan)
            },
            (AvoidancePhase::Turning { .. }, AvoidanceEvent::Elapsed) => {
                self.phase = AvoidancePhase::Cruise;
                AvoidanceAction::Recenter
            },
            (_, _) => AvoidanceAction::Hold,
        }
    }
}

/// Compares the two recorded samples against the threshold per
/// `decide_spec`.
pub fn decide(left_mm: u64, right_mm: u64, threshold_mm: u64) -> (m: Maneuver)
    ensures
        m == decide_spec(left_mm, right_mm, threshold_mm),
        (left_mm < threshold_mm && right_mm < threshold_mm) <==> m == Maneuver::Reverse,
{
    if left_mm < threshold_mm && right_mm < threshold_mm {
        Maneuver::Reverse
    } else if left_mm >= right_mm {
        Maneuver::TurnLeft
    } else {
        Maneuver::TurnRight
    }
}

/// A scan-and-decide episode is bounded: once a cruise sample falls below
/// the threshold, exactly four further events — the two scan samples, the
/// decision step and the end of the turn — bring the controller back to
/// `Cruise`, whatever the samples read.  In time this is the two settle
/// durations plus the turn duration.
pub proof fn lemma_episode_returns_to_cruise(
    threshold_mm: u64,
    trigger_mm: u64,
    left_mm: u64,
    right_mm: u64,
    decide_ev: AvoidanceEvent,
)
    requires
        trigger_mm < threshold_mm,
    ensures
        phase_step(
            phase_step(
                phase_step(
                    phase_step(
                        phase_step(
                            AvoidancePhase::Cruise,
                            threshold_mm,
                            AvoidanceEvent::Sample { distance_mm: trigger_mm },
                        ),
                        threshold_mm,
                        AvoidanceEvent::Sample { distance_mm: left_mm },
                    ),
                    threshold_mm,
                    AvoidanceEvent::Sample { distance_mm: right_mm },
                ),
                threshold_mm,
                decide_ev,
            ),
            threshold_mm,
            AvoidanceEvent::Elapsed,
        ) == AvoidancePhase::Cruise,
{
}

} // verus!
