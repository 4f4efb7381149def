use lumen::motion::EXPANDED_GLOW;
use lumen::motion::EXPANDED_RADIUS;
use lumen::motion::EXPANDED_SCALE;
use lumen::motion::EXPANDED_SHADOW;
use lumen::motion::IDLE_GLOW;
use lumen::motion::IDLE_RADIUS;
use lumen::motion::IDLE_SCALE;
use lumen::motion::IDLE_SHADOW;
use lumen::IslandMotionState;
use lumen::MotionDriver;
use lumen::Spring;
use lumen::SpringValue;

const MICRO: i64 = 1_000_000;

#[test]
fn default_spring_gains() {
    let s = Spring::default();
    assert_eq!(s.stiffness, 280);
    assert_eq!(s.damping, 28);
}

#[test]
fn new_spring_rests_on_its_value() {
    let s = SpringValue::new(600_000);
    assert_eq!(s.value, 600_000);
    assert_eq!(s.target, 600_000);
    assert_eq!(s.velocity, 0);
}

#[test]
fn set_changes_target_only() {
    let mut s = SpringValue::new(MICRO);
    s.set(750_000);
    assert_eq!(s.target, 750_000);
    assert_eq!(s.value, MICRO);
    assert_eq!(s.velocity, 0);
}

#[test]
fn one_step_is_the_exact_integer_formula() {
    // From rest at 0 toward one unit, over a 16 ms tick:
    // acceleration = -280 * (0 - 1_000_000) = 280_000_000,
    // velocity     = 280_000_000 * 16_000 / 1_000_000 = 4_480_000,
    // value        = 4_480_000 * 16_000 / 1_000_000 = 71_680.
    let mut s = SpringValue::new(0);
    s.set(MICRO);
    s.update(16_000);
    assert_eq!(s.velocity, 4_480_000);
    assert_eq!(s.value, 71_680);
}

#[test]
fn a_settled_spring_stays_exactly_put() {
    let mut s = SpringValue::new(750_000);
    for _ in 0..50 {
        s.update(33_000);
    }
    assert_eq!(s.value, 750_000);
    assert_eq!(s.velocity, 0);
}

#[test]
fn no_overshoot_from_rest_at_any_clamped_step() {
    for &dt in &[100i64, 16_000, 33_000] {
        let mut s = SpringValue::new(0);
        s.set(MICRO);
        s.update(dt);
        assert!(s.value <= MICRO, "overshoot at dt={}", dt);
        assert!(s.value >= 0, "moved away at dt={}", dt);
    }
}

#[test]
fn step_input_converges_within_a_second() {
    // One second of 16 ms ticks must bring a unit step within 1e-3 of the
    // target (1_000 micro-units).
    let mut s = SpringValue::new(0);
    s.set(MICRO);
    for _ in 0..63 {
        s.update(16_000);
    }
    assert!((s.value - MICRO).abs() <= 1_000, "value {}", s.value);

    // The same at the longest clamped tick.
    let mut s = SpringValue::new(0);
    s.set(MICRO);
    for _ in 0..31 {
        s.update(33_000);
    }
    assert!((s.value - MICRO).abs() <= 1_000, "value {}", s.value);

    // And at the shortest clamped tick.
    let mut s = SpringValue::new(0);
    s.set(MICRO);
    for _ in 0..10_000 {
        s.update(100);
    }
    assert!((s.value - MICRO).abs() <= 1_000, "value {}", s.value);
}

#[test]
fn new_island_rests_on_idle_preset() {
    let m = IslandMotionState::new();
    assert_eq!(m.scale.value, IDLE_SCALE);
    assert_eq!(m.radius.value, IDLE_RADIUS);
    assert_eq!(m.glow.value, IDLE_GLOW);
    assert_eq!(m.shadow.value, IDLE_SHADOW);
    assert_eq!(m.scale.velocity, 0);
}

#[test]
fn set_idle_twice_equals_once() {
    let mut once = IslandMotionState::new();
    once.set_expanded();
    let mut twice = once;
    once.set_idle();
    twice.set_idle();
    twice.set_idle();
    assert_eq!(once, twice);
    assert_eq!(once.scale.target, IDLE_SCALE);
    assert_eq!(once.radius.target, IDLE_RADIUS);
    assert_eq!(once.glow.target, IDLE_GLOW);
    assert_eq!(once.shadow.target, IDLE_SHADOW);
}

#[test]
fn set_expanded_twice_equals_once() {
    let mut once = IslandMotionState::new();
    once.set_expanded();
    let mut twice = once;
    twice.set_expanded();
    assert_eq!(once, twice);
    assert_eq!(once.scale.target, EXPANDED_SCALE);
    assert_eq!(once.radius.target, EXPANDED_RADIUS);
    assert_eq!(once.glow.target, EXPANDED_GLOW);
    assert_eq!(once.shadow.target, EXPANDED_SHADOW);
}

#[test]
fn mic_level_drives_targets() {
    let mut m = IslandMotionState::new();
    m.set_mic_level(400_000);
    assert_eq!(m.glow.target, 800_000 + 200_000);
    assert_eq!(m.scale.target, 1_050_000 + 40_000);
    assert_eq!(m.radius.target, 850_000);
    assert_eq!(m.shadow.target, IDLE_SHADOW);
}

#[test]
fn driver_clamps_a_zero_length_tick_up() {
    let mut driven = MotionDriver::new(5_000);
    driven.island.set_expanded();
    let mut manual = driven.island;

    // The clock did not move: the driver must step by the minimum tick.
    driven.update(5_000);
    manual.update(100);
    assert_eq!(driven.island, manual);
    assert_eq!(driven.last_time_us, 5_000);
}

#[test]
fn driver_clamps_a_stalled_tick_down() {
    let mut driven = MotionDriver::new(0);
    driven.island.set_expanded();
    let mut manual = driven.island;

    // Ten seconds stalled: the driver must step by the maximum tick only.
    driven.update(10_000_000);
    manual.update(33_000);
    assert_eq!(driven.island, manual);
    assert_eq!(driven.last_time_us, 10_000_000);
}

#[test]
fn driver_uses_the_elapsed_time_inside_the_clamp() {
    let mut driven = MotionDriver::new(1_000);
    driven.island.set_expanded();
    let mut manual = driven.island;

    driven.update(17_000);
    manual.update(16_000);
    assert_eq!(driven.island, manual);
}
