//! PID steering controller: converts a fused line position into a pair of
//! differential wheel speeds.
//!
//! All quantities are fixed-point integers in thousandths (milli-units): a
//! gain of 1.5 is 1500, a speed of 100.0 is 100_000.  Divisions by the scale
//! truncate toward zero, matching machine arithmetic.  The accumulated error
//! is clamped to the supplied base speed each tick (anti-windup), and a
//! nonlinear attenuation trims both wheel speeds after the correction.
use vstd::prelude::*;

verus! {

/// The widest magnitude, in milli-units, that deviations, gains and the base
/// speed may take; keeps every intermediate product inside an `i64`.
pub const SCALE_LIMIT_MILLI: i64 = 1_000_000;

/// `x` forced into `[lo, hi]`.
pub open spec fn clamp_milli(x: int, lo: int, hi: int) -> int {
    if x < lo {
        lo
    } else if x > hi {
        hi
    } else {
        x
    }
}

/// The magnitude of `x`.
pub open spec fn abs_int(x: int) -> int {
    if x < 0 {
        -x
    } else {
        x
    }
}

/// Division by the fixed-point scale, truncating toward zero as machine
/// division does.
pub open spec fn div_trunc_milli(x: int) -> int {
    if x >= 0 {
        x / 1000
    } else {
        -((-x) / 1000)
    }
}

/// The accumulated error after one tick: the deviation is added and the
/// result clamped to the speed range it can influence (anti-windup).
pub open spec fn integral_next(integral: int, deviation: int, limit: int) -> int {
    clamp_milli(integral + deviation, -limit, limit)
}

/// PID gains and the attenuation coefficient, in milli-units.
#[derive(Debug, Clone, Copy)]
pub struct PidGains {
    pub kp_milli: i64,
    pub ki_milli: i64,
    pub kd_milli: i64,
    pub ka_milli: i64,
}

impl PidGains {
    /// Gains are nonnegative and within the fixed-point range.
    pub open spec fn wf(self) -> bool {
        &&& 0 <= self.kp_milli <= SCALE_LIMIT_MILLI
        &&& 0 <= self.ki_milli <= SCALE_LIMIT_MILLI
        &&& 0 <= self.kd_milli <= SCALE_LIMIT_MILLI
        &&& 0 <= self.ka_milli <= SCALE_LIMIT_MILLI
    }
}

/// The raw PID correction in milli-units: proportional, integral and
/// derivative terms, descaled once.
pub open spec fn correction_milli(g: PidGains, integral: int, deviation: int, prev: int) -> int {
    div_trunc_milli(
        g.kp_milli * deviation + g.ki_milli * integral + g.kd_milli * (deviation - prev),
    )
}

/// The speed attenuation in milli-units: full speed (1000) reduced in
/// proportion to the deviation's magnitude.
pub open spec fn attenuation_milli(g: PidGains, deviation: int) -> int {
    1000 - (g.ka_milli * abs_int(deviation)) / 1000
}

/// One wheel's final speed: the corrected speed clamped to the base-speed
/// range, then attenuated.
pub open spec fn wheel_milli(base: int, corrected: int, attenuation: int) -> int {
    div_trunc_milli(clamp_milli(corrected, -base, base) * attenuation)
}

/// What the steering tick tells the motors.
#[derive(Debug, Clone, Copy, PartialEq, Eq, Structural)]
pub enum DriveCommand {
    /// The line filled the whole array: stop both motors.
    Halt,
    /// Differential speeds for the left and right motor, in milli-units.
    Drive { left_milli: i64, right_milli: i64 },
}

/// The PID line-following controller: gains plus the state mutated once per
/// tick.
pub struct PidController {
    pub gains: PidGains,
    pub integral_milli: i64,
    pub previous_deviation_milli: i64,
}

impl PidController {
    /// Gains in range, state within the fixed-point range.
    pub open spec fn wf(self) -> bool {
        &&& self.gains.wf()
        &&& -SCALE_LIMIT_MILLI <= self.integral_milli <= SCALE_LIMIT_MILLI
        &&& -SCALE_LIMIT_MILLI <= self.previous_deviation_milli <= SCALE_LIMIT_MILLI
    }

    /// A controller with the given gains and cleared state.
    pub fn new(gains: PidGains) -> (c: PidController)
        requires
            gains.wf(),
        ensures
            c.gains == gains,
            c.integral_milli == 0,
            c.previous_deviation_milli == 0,
            c.wf(),
    {
        PidController { gains, integral_milli: 0, previous_deviation_milli: 0 }
    }

    /// One control tick on an already-fused line position and an externally
    /// supplied base speed.
    ///
    /// On `NoLine` the command is `Halt` and the state is frozen, not reset:
    /// the accumulated error and the held deviation survive a momentary
    /// full-line event.  Otherwise the accumulated error is advanced and
    /// clamped, the correction and attenuation computed, and both wheel
    /// speeds returned; the deviation is then held for the next tick.
    pub fn tick(
        &mut self,
        position: crate::line_sensor::LinePosition,
        base_speed_milli: i64,
    ) -> (cmd: DriveCommand)
        requires
            old(self).wf(),
            0 <= base_speed_milli <= SCALE_LIMIT_MILLI,
            position matches crate::line_sensor::LinePosition::Deviation(d) ==> -SCALE_LIMIT_MILLI
                <= d <= SCALE_LIMIT_MILLI,
        ensures
            final(self).wf(),
            final(self).gains == old(self).gains,
            position is NoLine ==> cmd == DriveCommand::Halt && *final(self) == *old(self),
            position matches crate::line_sensor::LinePosition::Deviation(d) ==> {
                let next_integral = integral_next(
                    old(self).integral_milli as int,
                    d as int,
                    base_speed_milli as int,
                );
                let correction = correction_milli(
                    old(self).gains,
                    next_integral,
                    d as int,
                    old(self).previous_deviation_milli as int,
                );
                let attenuation = attenuation_milli(old(self).gains, d as int);
                &&& final(self).integral_milli == next_integral
                &&& final(self).previous_deviation_milli == d
                &&& cmd == (DriveCommand::Drive {
                    left_milli: wheel_milli(
                        base_speed_milli as int,
                        base_speed_milli - correction,
                        attenuation,
                    ) as i64,
                    right_milli: wheel_milli(
                        base_speed_milli as int,
                        base_speed_milli + correction,
                        attenuation,
                    ) as i64,
                })
            },
    {
        let deviation: i64 = match position {
            crate::line_sensor::LinePosition::NoLine => {
                return DriveCommand::Halt;
            },
            crate::line_sensor::LinePosition::Deviation(d) => d,
        };
        self.integral_milli = clamp_i64(
            self.integral_milli + deviation,
            -base_speed_milli,
            base_speed_milli,
        );
        let diff: i64 = deviation - self.previous_deviation_milli;
        proof {
            lemma_product_bound(self.gains.kp_milli as int, deviation as int);
            lemma_product_bound(self.gains.ki_milli as int, self.integral_milli as int);
            lemma_product_bound(self.gains.kd_milli as int, diff as int);
        }
        let pid_sum: i64 = self.gains.kp_milli * deviation + self.gains.ki_milli
            * self.integral_milli + self.gains.kd_milli * diff;
        let correction: i64 = div_trunc_1000(pid_sum);
        let deviation_mag: i64 = if deviation < 0 {
            -deviation
        } else {
            deviation
        };
        proof {
            assert(0 <= self.gains.ka_milli * deviation_mag <= 1_000_000_000_000)
                by (nonlinear_arith)
                requires
                    0 <= self.gains.ka_milli <= 1_000_000,
                    0 <= deviation_mag <= 1_000_000,
            ;
        }
        let scaled_mag: i64 = self.gains.ka_milli * deviation_mag;
        proof {
            vstd::arithmetic::div_mod::lemma_div_is_ordered(
                scaled_mag as int,
                1_000_000_000_000,
                1000,
            );
        }
        let reduction: i64 = ((scaled_mag as u64) / 1000) as i64;
        let attenuation: i64 = 1000 - reduction;
        let left_held: i64 = clamp_i64(
            base_speed_milli - correction,
            -base_speed_milli,
            base_speed_milli,
        );
        let right_held: i64 = clamp_i64(
            base_speed_milli + correction,
            -base_speed_milli,
            base_speed_milli,
        );
        proof {
            lemma_wheel_product_bound(left_held as int, attenuation as int, base_speed_milli as int);
            lemma_wheel_product_bound(
                right_held as int,
                attenuation as int,
                base_speed_milli as int,
            );
        }
        let left_milli: i64 = div_trunc_1000(left_held * attenuation);
        let right_milli: i64 = div_trunc_1000(right_held * attenuation);
        self.previous_deviation_milli = deviation;
        DriveCommand::Drive { left_milli, right_milli }
    }
}

/// Clamps `x` into `[lo, hi]`.
fn clamp_i64(x: i64, lo: i64, hi: i64) -> (r: i64)
    requires
        lo <= hi,
    ensures
        r == clamp_milli(x as int, lo as int, hi as int),
{
    if x < lo {
        lo
    } else if x > hi {
        hi
    } else {
        x
    }
}

/// Divides by the fixed-point scale, truncating toward zero.
fn div_trunc_1000(x: i64) -> (r: i64)
    requires
        x > i64::MIN,
    ensures
        r == div_trunc_milli(x as int),
{
    if x >= 0 {
        ((x as u64) / 1000) as i64
    } else {
        let mag: u64 = (-x) as u64;
        -((mag / 1000) as i64)
    }
}

/// The accumulated error after `k` ticks of a constant deviation.
pub open spec fn integral_iterate(start: int, deviation: int, limit: int, k: nat) -> int
    decreases k,
{
    if k == 0 {
        start
    } else {
        integral_next(integral_iterate(start, deviation, limit, (k - 1) as nat), deviation, limit)
    }
}

/// Anti-windup: whatever the deviation, one tick leaves the accumulated
/// error within `[-limit, limit]` — it never goes beyond the base speed.
pub proof fn lemma_integral_never_beyond(integral: int, deviation: int, limit: int)
    requires
        0 <= limit,
    ensures
        -limit <= integral_next(integral, deviation, limit) <= limit,
{
}

/// A zero deviation leaves the accumulated error exactly where it is, for
/// any number of ticks: with no recurring error the integral does not drift.
pub proof fn lemma_integral_zero_deviation(start: int, limit: int, k: nat)
    requires
        -limit <= start <= limit,
    ensures
        integral_iterate(start, 0, limit, k) == start,
    decreases k,
{
    if k > 0 {
        lemma_integral_zero_deviation(start, limit, (k - 1) as nat);
    }
}

/// A constant positive deviation drives the accumulated error up linearly
/// until it saturates at exactly `limit`, never beyond; a constant negative
/// deviation symmetrically pins it at exactly `-limit`.
pub proof fn lemma_integral_saturates(start: int, deviation: int, limit: int, k: nat)
    requires
        -limit <= start <= limit,
        0 <= limit,
    ensures
        deviation > 0 ==> integral_iterate(start, deviation, limit, k) == if start + k * deviation
            >= limit {
            limit
        } else {
            start + k * deviation
        },
        deviation < 0 ==> integral_iterate(start, deviation, limit, k) == if start + k * deviation
            <= -limit {
            -limit
        } else {
            start + k * deviation
        },
    decreases k,
{
    if k > 0 {
        let j = (k - 1) as nat;
        lemma_integral_saturates(start, deviation, limit, j);
        assert(k * deviation == j * deviation + deviation) by (nonlinear_arith)
            requires
                j == k - 1,
        ;
        if deviation > 0 {
            assert(j * deviation >= 0) by (nonlinear_arith)
                requires
                    j >= 0,
                    deviation > 0,
            ;
        }
        if deviation < 0 {
            assert(j * deviation <= 0) by (nonlinear_arith)
                requires
                    j >= 0,
                    deviation < 0,
            ;
        }
    }
}

/// The magnitude of a truncating descale is the flooring descale of the
/// magnitude.
proof fn lemma_div_trunc_abs(x: int)
    ensures
        abs_int(div_trunc_milli(x)) == abs_int(x) / 1000,
{
    if x >= 0 {
        vstd::arithmetic::div_mod::lemma_div_pos_is_pos(x, 1000);
    } else {
        vstd::arithmetic::div_mod::lemma_div_pos_is_pos(-x, 1000);
    }
}

/// Clamping-and-attenuating bounds both wheels: whatever correction the PID
/// computed, a wheel speed's magnitude never exceeds the base speed scaled
/// by the attenuation's magnitude.
pub proof fn lemma_wheel_within_attenuated_base(base: int, corrected: int, attenuation: int)
    requires
        0 <= base,
    ensures
        abs_int(wheel_milli(base, corrected, attenuation)) <= (base * abs_int(attenuation)) / 1000,
{
    let held = clamp_milli(corrected, -base, base);
    let product = held * attenuation;
    assert(abs_int(product) <= base * abs_int(attenuation)) by (nonlinear_arith)
        requires
            -base <= held <= base,
            0 <= base,
            product == held * attenuation,
    ;
    lemma_div_trunc_abs(product);
    vstd::arithmetic::div_mod::lemma_div_is_ordered(
        abs_int(product),
        base * abs_int(attenuation),
        1000,
    );
}

/// A product of two factors bounded by the fixed-point range (and twice it
/// for the second) stays well inside `i64`.
proof fn lemma_product_bound(a: int, b: int)
    requires
        0 <= a <= SCALE_LIMIT_MILLI,
        -2 * SCALE_LIMIT_MILLI <= b <= 2 * SCALE_LIMIT_MILLI,
    ensures
        -2_000_000_000_000 <= a * b <= 2_000_000_000_000,
{
    assert(-2_000_000_000_000 <= a * b <= 2_000_000_000_000) by (nonlinear_arith)
        requires
            0 <= a <= 1_000_000,
            -2_000_000 <= b <= 2_000_000,
    ;
}

/// The product of a clamped wheel speed and the attenuation stays well
/// inside `i64`.
proof fn lemma_wheel_product_bound(held: int, attenuation: int, base: int)
    requires
        -base <= held <= base,
        0 <= base <= SCALE_LIMIT_MILLI,
        -1_000_000_000 <= attenuation <= 1000,
    ensures
        -1_000_000_000_000_000 <= held * attenuation <= 1_000_000_000_000_000,
{
    assert(-1_000_000_000_000_000 <= held * attenuation <= 1_000_000_000_000_000)
        by (nonlinear_arith)
        requires
            -1_000_000 <= held <= 1_000_000,
            -1_000_000_000 <= attenuation <= 1000,
    ;
}

} // verus!
