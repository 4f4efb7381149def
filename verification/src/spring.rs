//! Damped-harmonic-oscillator scalar in fixed-point arithmetic.
//!
//! A spring value stores a current value, a target and a velocity, each as a
//! signed count of micro-units (`MICROS` micro-units make one unit). One
//! `step` applies a symplectic Euler update: the acceleration
//! `-stiffness * (value - target) - damping * velocity` first advances the
//! velocity over the elapsed microseconds, then the new velocity advances the
//! value. Divisions truncate toward zero and the results are clamped to the
//! representable range, which is far wider than any visual parameter ever
//! reaches, so inside that range the update is the exact integer formula.

use vstd::prelude::*;

verus! {

/// Micro-units per unit; also microseconds per second.
pub const MICROS: i64 = 1_000_000;

/// Magnitude limit for spring values and targets (ten thousand units).
pub const VALUE_LIMIT: i64 = 10_000_000_000;

/// Magnitude limit for spring velocities (ten thousand units per second).
pub const VELOCITY_LIMIT: i64 = 10_000_000_000;

/// Upper limit for the stiffness and damping gains.
pub const GAIN_LIMIT: i64 = 4_096;

/// Shortest tick the integrator accepts, in microseconds.
pub const DT_MIN_US: i64 = 100;

/// Longest tick the integrator accepts, in microseconds.
pub const DT_MAX_US: i64 = 33_000;

/// Default stiffness gain, per second squared.
pub const DEFAULT_STIFFNESS: i64 = 280;

/// Default damping gain, per second.
pub const DEFAULT_DAMPING: i64 = 28;

pub open spec fn mag(x: int) -> int {
    if x >= 0 {
        x
    } else {
        -x
    }
}

pub open spec fn clamp_int(x: int, lo: int, hi: int) -> int {
    if x < lo {
        lo
    } else if x > hi {
        hi
    } else {
        x
    }
}

/// Division truncating toward zero, for a positive divisor.
pub open spec fn div_trunc(a: int, b: int) -> int {
    if a >= 0 {
        a / b
    } else {
        -((-a) / b)
    }
}

pub open spec fn in_value_range(x: int) -> bool {
    -(VALUE_LIMIT as int) <= x <= VALUE_LIMIT as int
}

pub open spec fn in_velocity_range(x: int) -> bool {
    -(VELOCITY_LIMIT as int) <= x <= VELOCITY_LIMIT as int
}

pub open spec fn in_dt_range(dt: int) -> bool {
    DT_MIN_US as int <= dt <= DT_MAX_US as int
}

/// Acceleration of the oscillator, in micro-units per second squared.
pub open spec fn accel_of(stiffness: int, damping: int, value: int, velocity: int, target: int) -> int {
    -(stiffness * (value - target)) - damping * velocity
}

/// Velocity after one step of `dt` microseconds.
pub open spec fn stepped_velocity(
    stiffness: int,
    damping: int,
    value: int,
    velocity: int,
    target: int,
    dt: int,
) -> int {
    clamp_int(
        velocity + div_trunc(accel_of(stiffness, damping, value, velocity, target) * dt, MICROS as int),
        -(VELOCITY_LIMIT as int),
        VELOCITY_LIMIT as int,
    )
}

/// Value after one step of `dt` microseconds; it advances by the new velocity.
pub open spec fn stepped_value(
    stiffness: int,
    damping: int,
    value: int,
    velocity: int,
    target: int,
    dt: int,
) -> int {
    clamp_int(
        value + div_trunc(stepped_velocity(stiffness, damping, value, velocity, target, dt) * dt, MICROS as int),
        -(VALUE_LIMIT as int),
        VALUE_LIMIT as int,
    )
}

fn clamp64(x: i64, lo: i64, hi: i64) -> (r: i64)
    requires
        lo <= hi,
    ensures
        r as int == clamp_int(x as int, lo as int, hi as int),
{
    if x < lo {
        lo
    } else if x > hi {
        hi
    } else {
        x
    }
}

/// Truncating division by `MICROS`.
fn div_micros(a: i64) -> (q: i64)
    requires
        a > i64::MIN,
    ensures
        q as int == div_trunc(a as int, MICROS as int),
        mag(q as int) * (MICROS as int) <= mag(a as int),
{
    proof {
        lemma_div_trunc_mag(a as int, MICROS as int);
    }
    if a >= 0 {
        a / MICROS
    } else {
        -((-a) / MICROS)
    }
}

/// For a positive divisor, truncating division shrinks the magnitude:
/// the quotient times the divisor stays within the dividend, and the
/// quotient keeps the dividend's sign.
pub proof fn lemma_div_trunc_mag(a: int, b: int)
    requires
        b >= 1,
    ensures
        mag(div_trunc(a, b)) * b <= mag(a),
        mag(div_trunc(a, b)) <= mag(a),
        a >= 0 ==> div_trunc(a, b) >= 0,
        a <= 0 ==> div_trunc(a, b) <= 0,
{
    if a >= 0 {
        assert(a / b >= 0 && (a / b) * b <= a) by (nonlinear_arith)
            requires
                a >= 0,
                b >= 1;
        assert(a / b <= a) by (nonlinear_arith)
            requires
                a >= 0,
                b >= 1;
    } else {
        let n = -a;
        assert(n / b >= 0 && (n / b) * b <= n) by (nonlinear_arith)
            requires
                n > 0,
                b >= 1;
        assert(n / b <= n) by (nonlinear_arith)
            requires
                n > 0,
                b >= 1;
    }
}

/// The two gains of the oscillator.
#[derive(Clone, Copy, Debug, PartialEq, Eq, Structural)]
pub struct Spring {
    pub stiffness: i64,
    pub damping: i64,
}

impl Spring {
    pub open spec fn wf(self) -> bool {
        &&& 1 <= self.stiffness <= GAIN_LIMIT
        &&& 1 <= self.damping <= GAIN_LIMIT
    }

    /// One symplectic Euler update of a value/velocity pair toward `target`
    /// over `dt` microseconds.
    pub fn step(&self, value: &mut i64, velocity: &mut i64, target: i64, dt: i64)
        requires
            self.wf(),
            in_value_range(*old(value) as int),
            in_value_range(target as int),
            in_velocity_range(*old(velocity) as int),
            in_dt_range(dt as int),
        ensures
            *final(velocity) as int == stepped_velocity(
                self.stiffness as int,
                self.damping as int,
                *old(value) as int,
                *old(velocity) as int,
                target as int,
                dt as int,
            ),
            *final(value) as int == stepped_value(
                self.stiffness as int,
                self.damping as int,
                *old(value) as int,
                *old(velocity) as int,
                target as int,
                dt as int,
            ),
            in_velocity_range(*final(velocity) as int),
            in_value_range(*final(value) as int),
    {
        let d: i64 = *value - target;
        let vel0: i64 = *velocity;
        proof {
            assert(mag(self.stiffness * (d as int)) <= 81_920_000_000_000int) by (nonlinear_arith)
                requires
                    1 <= self.stiffness <= 4_096,
                    -20_000_000_000 <= d <= 20_000_000_000;
            assert(mag(self.damping * (vel0 as int)) <= 40_960_000_000_000int)
                by (nonlinear_arith)
                requires
                    1 <= self.damping <= 4_096,
                    -10_000_000_000 <= vel0 <= 10_000_000_000;
        }
        let acc: i64 = -(self.stiffness * d) - self.damping * vel0;
        proof {
            assert(mag((acc as int) * (dt as int)) <= 4_055_040_000_000_000_000int)
                by (nonlinear_arith)
                requires
                    -122_880_000_000_000 <= acc <= 122_880_000_000_000,
                    100 <= dt <= 33_000;
        }
        let dv: i64 = div_micros(acc * dt);
        let v1: i64 = clamp64(*velocity + dv, -VELOCITY_LIMIT, VELOCITY_LIMIT);
        proof {
            assert(mag((v1 as int) * (dt as int)) <= 330_000_000_000_000int) by (nonlinear_arith)
                requires
                    -10_000_000_000 <= v1 <= 10_000_000_000,
                    100 <= dt <= 33_000;
        }
        let dx: i64 = div_micros(v1 * dt);
        let x1: i64 = clamp64(*value + dx, -VALUE_LIMIT, VALUE_LIMIT);
        *velocity = v1;
        *value = x1;
    }
}

impl Default for Spring {
    /// The default gains give a near-critically-damped response.
    fn default() -> (s: Self)
        ensures
            s == (Spring { stiffness: DEFAULT_STIFFNESS, damping: DEFAULT_DAMPING }),
            s.wf(),
    {
        Spring { stiffness: DEFAULT_STIFFNESS, damping: DEFAULT_DAMPING }
    }
}

/// One spring-animated scalar: the current value, the target it moves toward,
/// its velocity, and the gains that drive it.
#[derive(Clone, Copy, Debug, PartialEq, Eq, Structural)]
pub struct SpringValue {
    pub value: i64,
    pub target: i64,
    pub velocity: i64,
    pub spring: Spring,
}

/// The spring value after one step of `dt` microseconds.
pub open spec fn spring_value_after(s: SpringValue, dt: int) -> SpringValue {
    SpringValue {
        value: stepped_value(
            s.spring.stiffness as int,
            s.spring.damping as int,
            s.value as int,
            s.velocity as int,
            s.target as int,
            dt,
        ) as i64,
        velocity: stepped_velocity(
            s.spring.stiffness as int,
            s.spring.damping as int,
            s.value as int,
            s.velocity as int,
            s.target as int,
            dt,
        ) as i64,
        ..s
    }
}

impl SpringValue {
    /// A spring at rest at `v` with the default gains.
    pub open spec fn spec_rest(v: i64) -> SpringValue {
        SpringValue {
            value: v,
            target: v,
            velocity: 0,
            spring: Spring { stiffness: DEFAULT_STIFFNESS, damping: DEFAULT_DAMPING },
        }
    }

    pub open spec fn wf(self) -> bool {
        &&& in_value_range(self.value as int)
        &&& in_value_range(self.target as int)
        &&& in_velocity_range(self.velocity as int)
        &&& self.spring.wf()
    }

    /// A spring at rest at `v`, targeting `v`, with the default gains.
    pub fn new(v: i64) -> (s: Self)
        requires
            in_value_range(v as int),
        ensures
            s == SpringValue::spec_rest(v),
            s.wf(),
    {
        SpringValue { value: v, target: v, velocity: 0, spring: Spring::default() }
    }

    /// Retarget the spring; value and velocity keep evolving continuously.
    pub fn set(&mut self, t: i64)
        requires
            in_value_range(t as int),
        ensures
            *final(self) == (SpringValue { target: t, ..*old(self) }),
    {
        self.target = t;
    }

    /// Advance the spring by `dt` microseconds.
    pub fn update(&mut self, dt: i64)
        requires
            old(self).wf(),
            in_dt_range(dt as int),
        ensures
            *final(self) == spring_value_after(*old(self), dt as int),
            final(self).wf(),
    {
        let spring: Spring = self.spring;
        let target: i64 = self.target;
        spring.step(&mut self.value, &mut self.velocity, target, dt);
    }
}

/// A spring resting on its target is a fixed point: any step of any clamped
/// length leaves value and velocity exactly where they are.
pub proof fn lemma_settled_spring_is_fixed(stiffness: int, damping: int, x: int, dt: int)
    requires
        1 <= stiffness <= GAIN_LIMIT as int,
        1 <= damping <= GAIN_LIMIT as int,
        in_value_range(x),
        in_dt_range(dt),
    ensures
        stepped_velocity(stiffness, damping, x, 0, x, dt) == 0,
        stepped_value(stiffness, damping, x, 0, x, dt) == x,
{
    assert(accel_of(stiffness, damping, x, 0, x) == 0) by (nonlinear_arith);
}

/// From rest, one step never moves the value past its target, and never
/// increases the distance to the target, provided the stiffness is small
/// enough for the step length (`stiffness * dt * dt <= MICROS * MICROS`,
/// which the default gains satisfy for every clamped tick length).
pub proof fn lemma_step_from_rest_no_overshoot(
    stiffness: int,
    damping: int,
    value: int,
    target: int,
    dt: int,
)
    requires
        1 <= stiffness <= GAIN_LIMIT as int,
        1 <= damping <= GAIN_LIMIT as int,
        in_value_range(value),
        in_value_range(target),
        in_dt_range(dt),
        stiffness * dt * dt <= (MICROS as int) * (MICROS as int),
    ensures
        mag(stepped_value(stiffness, damping, value, 0, target, dt) - target) <= mag(value - target),
        value <= target ==> stepped_value(stiffness, damping, value, 0, target, dt) <= target,
        value >= target ==> stepped_value(stiffness, damping, value, 0, target, dt) >= target,
{
    let m = MICROS as int;
    let d = value - target;
    let acc = accel_of(stiffness, damping, value, 0, target);
    assert(acc == -(stiffness * d));
    let dv = div_trunc(acc * dt, m);
    lemma_div_trunc_mag(acc * dt, m);
    let v1 = stepped_velocity(stiffness, damping, value, 0, target, dt);
    assert(v1 == clamp_int(dv, -(VELOCITY_LIMIT as int), VELOCITY_LIMIT as int));
    // The clamp keeps the sign and never grows the magnitude.
    assert(mag(v1) <= mag(dv) && (dv >= 0 ==> v1 >= 0) && (dv <= 0 ==> v1 <= 0));
    let dx = div_trunc(v1 * dt, m);
    lemma_div_trunc_mag(v1 * dt, m);

    // Magnitude chain: |dx| * m * m <= |v1| * dt * m <= |acc * dt| * dt
    // <= stiffness * dt * dt * |d| <= m * m * |d|, hence |dx| <= |d|.
    assert(mag(acc * dt) == stiffness * mag(d) * dt) by (nonlinear_arith)
        requires
            acc == -(stiffness * d),
            stiffness >= 1,
            dt >= 1;
    assert(mag(v1 * dt) == mag(v1) * dt) by (nonlinear_arith)
        requires
            dt >= 1;
    assert(mag(dx) * m * m <= mag(v1) * dt * m) by (nonlinear_arith)
        requires
            mag(dx) * m <= mag(v1 * dt),
            mag(v1 * dt) == mag(v1) * dt,
            m >= 1;
    assert(mag(v1) * dt * m <= stiffness * mag(d) * dt * dt) by (nonlinear_arith)
        requires
            mag(v1) * m <= mag(acc * dt),
            mag(acc * dt) == stiffness * mag(d) * dt,
            dt >= 1,
            m >= 1;
    assert(stiffness * mag(d) * dt * dt <= m * m * mag(d)) by (nonlinear_arith)
        requires
            stiffness * dt * dt <= m * m,
            mag(d) >= 0,
            stiffness >= 1,
            dt >= 1;
    assert(mag(dx) <= mag(d)) by (nonlinear_arith)
        requires
            mag(dx) * m * m <= m * m * mag(d),
            m >= 1;

    // Sign chain: dx opposes d, so value + dx stays between value and target.
    if d > 0 {
        assert(acc * dt < 0) by (nonlinear_arith)
            requires
                acc == -(stiffness * d),
                stiffness >= 1,
                d > 0,
                dt >= 1;
        assert(v1 * dt <= 0) by (nonlinear_arith)
            requires
                v1 <= 0,
                dt >= 1;
        assert(dx <= 0);
        assert(target <= value + dx <= value);
    } else if d < 0 {
        assert(acc * dt > 0) by (nonlinear_arith)
            requires
                acc == -(stiffness * d),
                stiffness >= 1,
                d < 0,
                dt >= 1;
        assert(v1 * dt >= 0) by (nonlinear_arith)
            requires
                v1 >= 0,
                dt >= 1;
        assert(dx >= 0);
        assert(value <= value + dx <= target);
    } else {
        assert(acc == 0) by (nonlinear_arith)
            requires
                acc == -(stiffness * d),
                d == 0;
        assert(dv == 0 && v1 == 0 && dx == 0);
    }
    assert(stepped_value(stiffness, damping, value, 0, target, dt) == value + dx);
}

} // verus!
