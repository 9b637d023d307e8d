//! Integer model of the scan servo.
//!
//! The servo is driven by a PWM signal whose duty cycle maps linearly onto
//! the shaft angle: the duty at zero degrees is the pulse floor, and ninety
//! degrees adds twice that floor again.  Angles are whole degrees; the
//! computed duty is what the owning task writes to the PWM channel.
use vstd::prelude::*;

verus! {

/// The scan servo: duty calibration and the mechanical limit.
pub struct Servo {
    pub duty_on_zero: u16,
    pub max_angle: u16,
    pub duty_cycle: u16,
}

/// The duty cycle that points the shaft at `angle` degrees: the zero-degree
/// floor plus the linear span, two floors over ninety degrees.
pub open spec fn duty_for_angle(duty_on_zero: int, angle: int) -> int {
    duty_on_zero + (2 * duty_on_zero * angle) / 90
}

impl Servo {
    /// The calibration keeps every reachable duty inside the 16-bit PWM
    /// register.
    pub open spec fn wf(self) -> bool {
        &&& self.max_angle <= 360
        &&& duty_for_angle(self.duty_on_zero as int, self.max_angle as int) <= u16::MAX
    }

    /// Calibrates the servo from the PWM period in milliseconds and the
    /// channel's maximal duty value.  The pulse floor is the duty of the
    /// shortest servo pulse, one part in twice the period.
    pub fn new(period: u8, max_angle: u16, max_duty: u16) -> (s: Servo)
        requires
            1 <= period <= 127,
            max_angle <= 360,
            (max_duty as int / (2 * period)) * 9 <= u16::MAX,
        ensures
            s.duty_on_zero == max_duty as int / (2 * period),
            s.max_angle == max_angle,
            s.duty_cycle == 0,
            s.wf(),
    {
        let duty_on_zero: u16 = max_duty / (period as u16 * 2);
        proof {
            assert(2 * duty_on_zero * max_angle <= duty_on_zero * 8 * 90) by (nonlinear_arith)
                requires
                    0 <= duty_on_zero,
                    0 <= max_angle <= 360,
            ;
            vstd::arithmetic::div_mod::lemma_div_is_ordered(
                2 * duty_on_zero * max_angle,
                duty_on_zero * 8 * 90,
                90,
            );
            vstd::arithmetic::div_mod::lemma_div_multiples_vanish(duty_on_zero * 8, 90);
            vstd::arithmetic::div_mod::lemma_div_pos_is_pos(2 * duty_on_zero * max_angle, 90);
        }
        Servo { duty_on_zero, max_angle, duty_cycle: 0 }
    }

    /// Points the shaft: the angle is clamped to the mechanical limit, the
    /// linear duty computed and recorded for the PWM write.
    pub fn set_angle(&mut self, angle: u16) -> (duty: u16)
        requires
            old(self).wf(),
        ensures
            final(self).wf(),
            final(self).duty_on_zero == old(self).duty_on_zero,
            final(self).max_angle == old(self).max_angle,
            duty == duty_for_angle(
                old(self).duty_on_zero as int,
                if angle > old(self).max_angle {
                    old(self).max_angle as int
                } else {
                    angle as int
                },
            ),
            final(self).duty_cycle == duty,
    {
        let aimed: u16 = if angle > self.max_angle {
            self.max_angle
        } else {
            angle
        };
        proof {
            assert(2 * self.duty_on_zero * aimed <= 2 * self.duty_on_zero * self.max_angle)
                by (nonlinear_arith)
                requires
                    0 <= aimed <= self.max_angle,
                    0 <= self.duty_on_zero,
            ;
            vstd::arithmetic::div_mod::lemma_div_is_ordered(
                2 * self.duty_on_zero * aimed,
                2 * self.duty_on_zero * self.max_angle,
                90,
            );
            vstd::arithmetic::div_mod::lemma_div_pos_is_pos(2 * self.duty_on_zero * aimed, 90);
            assert(2 * (self.duty_on_zero as int) * (aimed as int) <= 2 * 65535 * 360);
        }
        let span: u64 = 2 * (self.duty_on_zero as u64) * (aimed as u64) / 90;
        let duty: u16 = self.duty_on_zero + span as u16;
        self.duty_cycle = duty;
        duty
    }
}

} // verus!
