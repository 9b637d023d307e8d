//! Integer model of one motor of the differential drive.
//!
//! The physical motor is a PWM channel and two direction pins.  The model
//! holds exactly what the driver commands: the clamped speed, the direction,
//! the two pin levels and the duty cycle in percent.  The task that owns the
//! hardware mirrors these fields onto the pins and the PWM register after
//! every call.
use vstd::prelude::*;

verus! {

/// Which way the motor turns.
#[derive(Debug, Default, Clone, Copy, PartialEq, Eq, Structural)]
pub enum Direction {
    #[default]
    Forward,
    Backward,
}

/// One motor: commanded speed, direction, pin levels and duty cycle.
pub struct Motor {
    pub speed: i16,
    pub direction: Direction,
    pub forward_high: bool,
    pub backward_high: bool,
    pub duty_percent: u8,
}

/// The magnitude of a speed request, clamped to the drivable range.
pub open spec fn clamped_magnitude(speed: int) -> int {
    let mag = if speed < 0 {
        -speed
    } else {
        speed
    };
    if mag > 100 {
        100
    } else {
        mag
    }
}

impl Motor {
    /// A motor handed over with the given initial speed and direction; the
    /// pins start low and the PWM off, as the board leaves them.
    pub fn new(speed: i16, direction: Direction) -> (m: Motor)
        ensures
            m.speed == speed,
            m.direction == direction,
            !m.forward_high,
            !m.backward_high,
            m.duty_percent == 0,
    {
        Motor { speed, direction, forward_high: false, backward_high: false, duty_percent: 0 }
    }

    /// Sets the direction without touching speed or pins.
    pub fn set_dir(&mut self, dir: Direction)
        ensures
            *final(self) == (Motor { direction: dir, ..*old(self) }),
    {
        self.direction = dir;
    }

    /// The current direction.
    pub fn get_dir(&mut self) -> (dir: Direction)
        ensures
            *final(self) == *old(self),
            dir == old(self).direction,
    {
        self.direction
    }

    /// The current commanded speed magnitude.
    pub fn get_speed(&self) -> (speed: i16)
        ensures
            speed == self.speed,
    {
        self.speed
    }

    /// Stops the motor: duty off, and the fail-safe pin state of forward
    /// low, backward high.  The direction field is left as it was.
    pub fn stop(&mut self)
        ensures
            final(self).speed == 0,
            final(self).direction == old(self).direction,
            !final(self).forward_high,
            final(self).backward_high,
            final(self).duty_percent == 0,
    {
        self.speed = 0;
        self.forward_high = false;
        self.backward_high = true;
        self.duty_percent = 0;
    }

    /// Runs the motor at a signed speed: the sign picks the direction, the
    /// magnitude is clamped to 100 and becomes the duty cycle in percent,
    /// and the direction pins follow the direction.
    pub fn run(&mut self, speed: i16)
        ensures
            final(self).speed == clamped_magnitude(speed as int),
            final(self).direction == if speed < 0 {
                Direction::Backward
            } else {
                Direction::Forward
            },
            final(self).forward_high == (speed >= 0),
            final(self).backward_high == (speed < 0),
            final(self).duty_percent == final(self).speed,
    {
        if speed < 0 {
            self.direction = Direction::Backward;
            self.speed = if speed < -100 {
                100
            } else {
                -speed
            };
        } else {
            self.direction = Direction::Forward;
            self.speed = if speed > 100 {
                100
            } else {
                speed
            };
        }
        match self.direction {
            Direction::Forward => {
                self.forward_high = true;
                self.backward_high = false;
            },
            Direction::Backward => {
                self.forward_high = false;
                self.backward_high = true;
            },
        }
        self.duty_percent = self.speed as u8;
    }
}

} // verus!
