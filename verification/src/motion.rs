//! Motion state of the island widget: four named springs and the driver that
//! advances them once per tick with a clamped delta-time.

use vstd::prelude::*;

use crate::spring::DT_MAX_US;
use crate::spring::DT_MIN_US;
use crate::spring::SpringValue;
use crate::spring::clamp_int;
use crate::spring::in_dt_range;
use crate::spring::spring_value_after;

verus! {

/// Idle preset, in micro-units: scale 1.0, radius 1.0, glow 0.6, shadow 0.5.
pub const IDLE_SCALE: i64 = 1_000_000;

pub const IDLE_RADIUS: i64 = 1_000_000;

pub const IDLE_GLOW: i64 = 600_000;

pub const IDLE_SHADOW: i64 = 500_000;

/// Expanded preset, in micro-units: scale 1.25, radius 0.75, glow 1.0,
/// shadow 0.9.
pub const EXPANDED_SCALE: i64 = 1_250_000;

pub const EXPANDED_RADIUS: i64 = 750_000;

pub const EXPANDED_GLOW: i64 = 1_000_000;

pub const EXPANDED_SHADOW: i64 = 900_000;

/// The four spring-animated parameters of the island.
#[derive(Clone, Copy, Debug, PartialEq, Eq, Structural)]
pub struct IslandMotionState {
    pub scale: SpringValue,
    pub radius: SpringValue,
    pub glow: SpringValue,
    pub shadow: SpringValue,
}

/// The motion state after every spring advanced by `dt` microseconds.
pub open spec fn island_after(s: IslandMotionState, dt: int) -> IslandMotionState {
    IslandMotionState {
        scale: spring_value_after(s.scale, dt),
        radius: spring_value_after(s.radius, dt),
        glow: spring_value_after(s.glow, dt),
        shadow: spring_value_after(s.shadow, dt),
    }
}

/// The motion state retargeted to the idle preset.
pub open spec fn with_idle_targets(s: IslandMotionState) -> IslandMotionState {
    IslandMotionState {
        scale: SpringValue { target: IDLE_SCALE, ..s.scale },
        radius: SpringValue { target: IDLE_RADIUS, ..s.radius },
        glow: SpringValue { target: IDLE_GLOW, ..s.glow },
        shadow: SpringValue { target: IDLE_SHADOW, ..s.shadow },
    }
}

/// The motion state retargeted to the expanded preset.
pub open spec fn with_expanded_targets(s: IslandMotionState) -> IslandMotionState {
    IslandMotionState {
        scale: SpringValue { target: EXPANDED_SCALE, ..s.scale },
        radius: SpringValue { target: EXPANDED_RADIUS, ..s.radius },
        glow: SpringValue { target: EXPANDED_GLOW, ..s.glow },
        shadow: SpringValue { target: EXPANDED_SHADOW, ..s.shadow },
    }
}

impl IslandMotionState {
    /// The initial motion state: all four springs at rest on the idle preset.
    pub open spec fn new_spec() -> IslandMotionState {
        IslandMotionState {
            scale: SpringValue::spec_rest(IDLE_SCALE),
            radius: SpringValue::spec_rest(IDLE_RADIUS),
            glow: SpringValue::spec_rest(IDLE_GLOW),
            shadow: SpringValue::spec_rest(IDLE_SHADOW),
        }
    }

    pub open spec fn wf(self) -> bool {
        &&& self.scale.wf()
        &&& self.radius.wf()
        &&& self.glow.wf()
        &&& self.shadow.wf()
    }

    /// All four springs at rest on the idle preset.
    pub fn new() -> (s: Self)
        ensures
            s == IslandMotionState::new_spec(),
            s.wf(),
    {
        IslandMotionState {
            scale: SpringValue::new(IDLE_SCALE),
            radius: SpringValue::new(IDLE_RADIUS),
            glow: SpringValue::new(IDLE_GLOW),
            shadow: SpringValue::new(IDLE_SHADOW),
        }
    }

    /// Retarget every spring to the expanded preset.
    pub fn set_expanded(&mut self)
        ensures
            *final(self) == with_expanded_targets(*old(self)),
    {
        self.scale.set(EXPANDED_SCALE);
        self.radius.set(EXPANDED_RADIUS);
        self.glow.set(EXPANDED_GLOW);
        self.shadow.set(EXPANDED_SHADOW);
    }

    /// Retarget every spring to the idle preset.
    pub fn set_idle(&mut self)
        ensures
            *final(self) == with_idle_targets(*old(self)),
    {
        self.scale.set(IDLE_SCALE);
        self.radius.set(IDLE_RADIUS);
        self.glow.set(IDLE_GLOW);
        self.shadow.set(IDLE_SHADOW);
    }

    /// Drive glow, scale and radius directly from an audio level in
    /// `0 ..= MICROS` micro-units.
    pub fn set_mic_level(&mut self, level: i64)
        requires
            0 <= level <= 1_000_000,
        ensures
            final(self).glow == (SpringValue { target: (800_000 + level / 2) as i64, ..old(self).glow }),
            final(self).scale == (SpringValue {
                target: (1_050_000 + level / 10) as i64,
                ..old(self).scale
            }),
            final(self).radius == (SpringValue { target: 850_000i64, ..old(self).radius }),
            final(self).shadow == old(self).shadow,
    {
        self.glow.set(800_000 + level / 2);
        self.scale.set(1_050_000 + level / 10);
        self.radius.set(850_000);
    }

    /// Advance every spring by `dt` microseconds.
    pub fn update(&mut self, dt: i64)
        requires
            old(self).wf(),
            in_dt_range(dt as int),
        ensures
            *final(self) == island_after(*old(self), dt as int),
            final(self).wf(),
    {
        self.scale.update(dt);
        self.radius.update(dt);
        self.glow.update(dt);
        self.shadow.update(dt);
    }
}

/// Retargeting to a preset is idempotent: a second `set_idle` or
/// `set_expanded` leaves the motion state exactly as the first did.
pub proof fn lemma_preset_idempotent(s: IslandMotionState)
    ensures
        with_idle_targets(with_idle_targets(s)) == with_idle_targets(s),
        with_expanded_targets(with_expanded_targets(s)) == with_expanded_targets(s),
{
}

/// The clamped tick length for a step from `last_us` to `now_us`, in
/// microseconds; a clock that did not move counts as the minimum step.
pub open spec fn dt_of(last_us: u64, now_us: u64) -> int {
    clamp_int(
        if now_us >= last_us {
            now_us - last_us
        } else {
            0
        },
        DT_MIN_US as int,
        DT_MAX_US as int,
    )
}

/// The driver state after one update at clock reading `now_us`.
pub open spec fn driver_after(d: MotionDriver, now_us: u64) -> MotionDriver {
    MotionDriver { island: island_after(d.island, dt_of(d.last_time_us, now_us)), last_time_us: now_us }
}

/// Advances the island springs once per tick, clamping the elapsed time so a
/// stalled tick cannot inject a destabilising step.
#[derive(Clone, Copy, Debug, PartialEq, Eq, Structural)]
pub struct MotionDriver {
    pub island: IslandMotionState,
    pub last_time_us: u64,
}

impl MotionDriver {
    pub open spec fn wf(self) -> bool {
        self.island.wf()
    }

    /// A driver starting at clock reading `now_us` with the idle motion state.
    pub fn new(now_us: u64) -> (d: Self)
        ensures
            d.island == IslandMotionState::new_spec(),
            d.last_time_us == now_us,
            d.wf(),
    {
        MotionDriver { island: IslandMotionState::new(), last_time_us: now_us }
    }

    /// Advance the island by the clamped time elapsed since the last update.
    pub fn update(&mut self, now_us: u64)
        requires
            old(self).wf(),
        ensures
            *final(self) == driver_after(*old(self), now_us),
            final(self).wf(),
    {
        let elapsed: u64 = if now_us >= self.last_time_us {
            now_us - self.last_time_us
        } else {
            0
        };
        let dt: i64 = if elapsed < DT_MIN_US as u64 {
            DT_MIN_US
        } else if elapsed > DT_MAX_US as u64 {
            DT_MAX_US
        } else {
            elapsed as i64
        };
        self.last_time_us = now_us;
        self.island.update(dt);
    }
}

} // verus!
