//! Control core of a small differential-drive robot: line-sensor fusion, a
//! PID steering controller, a capacity-one distance mailbox between a
//! high-priority ranging task and the steering task, an obstacle-avoidance
//! state machine, and integer models of the motor and servo actuators.
//!
//! All quantities are plain integers: speeds, gains and deviations are held
//! in thousandths (milli-units), distances in millimeters.  The hardware
//! edges (pin reads, PWM writes, the ultrasonic echo wait) live outside this
//! crate; the functions here compute every command from plain values.
use vstd::prelude::*;

pub mod avoidance;
pub mod follow;
pub mod line_sensor;
pub mod mailbox;
pub mod motor;
pub mod pid;
pub mod ranging;
pub mod semafor;
pub mod servo;

verus! {

/// A stand-in input pin with a fixed level, for exercising the sensor
/// types without hardware.
pub struct MockPin {
    pub state: bool,
}

impl MockPin {
    /// A pin stuck at the given level, `true` for high.
    pub fn new(state: bool) -> (p: MockPin)
        ensures
            p.state == state,
    {
        MockPin { state }
    }
}

impl crate::line_sensor::LevelPin for MockPin {
    open spec fn level_high(&self) -> bool {
        self.state
    }

    fn is_high(&self) -> (high: bool) {
        self.state
    }

    fn is_low(&self) -> (low: bool) {
        !self.state
    }
}

} // verus!
