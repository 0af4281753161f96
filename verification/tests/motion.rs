use player_motion::motion::{MotionConfig, PlayerMotionState, SCALE};

// The demo tuning: speed 1, ground friction 0.9, air friction 0.95, jump
// force 75, gravity 2, all in fixed-point sub-units of SCALE = 1000.
fn demo_config() -> MotionConfig {
    MotionConfig {
        speed: 1000,
        ground_friction: 900,
        air_friction: 950,
        jump_force: 75_000,
        gravity: 2000,
    }
}

#[test]
fn starts_airborne_at_rest() {
    let s = PlayerMotionState::new();
    assert!(!s.grounded);
    assert_eq!(s.velocity.x, 0);
    assert_eq!(s.velocity.y, 0);
}

#[test]
fn rest_on_ground_feels_only_gravity() {
    // At rest on the ground, no input, no jump: the tick returns exactly
    // (0, -gravity * dt); damping a zero velocity has no visible effect.
    let c = demo_config();
    let mut s = PlayerMotionState::new();
    s.on_grounded_changed(true);
    let t = s.step(0, false, 1000, &c);
    assert_eq!(t.x, 0);
    assert_eq!(t.y, -2000);
}

#[test]
fn rest_on_ground_with_zero_dt_is_still() {
    let c = demo_config();
    let mut s = PlayerMotionState::new();
    s.on_grounded_changed(true);
    let t = s.step(0, false, 0, &c);
    assert_eq!(t.x, 0);
    assert_eq!(t.y, 0);
}

#[test]
fn zero_dt_leaves_only_friction() {
    // With dt = 0 the drift and gravity contributions vanish and only the
    // friction decay acts on the carried velocity.
    let c = demo_config();
    let mut s = PlayerMotionState::new();
    s.velocity.x = 1000;
    s.velocity.y = 1000;
    s.on_grounded_changed(true);
    let t = s.step(1, true, 0, &c);
    // jump overwrites vy with jump_force * 0 = 0; both axes then decay.
    assert_eq!(t.x, 900);
    assert_eq!(t.y, 0);
}

#[test]
fn jump_fires_only_on_the_ground() {
    let c = demo_config();

    // Airborne: a jump press computes exactly what no press computes.
    let mut pressed = PlayerMotionState::new();
    let t_pressed = pressed.step(0, true, 1000, &c);
    let mut unpressed = PlayerMotionState::new();
    let t_unpressed = unpressed.step(0, false, 1000, &c);
    assert_eq!(t_pressed, t_unpressed);
    assert_eq!(t_pressed.y, -2000);

    // Grounded: the press overwrites the vertical velocity.
    let mut grounded = PlayerMotionState::new();
    grounded.on_grounded_changed(true);
    let t = grounded.step(0, true, 1000, &c);
    // vy = 75 (jump force * dt), damped by 0.9 to 67.5, minus gravity 2.
    assert_eq!(t.y, 65_500);
    assert_eq!(t.x, 0);
}

#[test]
fn grounded_report_is_visible_in_the_same_tick() {
    let c = demo_config();

    // Report then step: the step must already see the new flag, so the jump
    // fires...
    let mut s = PlayerMotionState::new();
    s.on_grounded_changed(true);
    let t = s.step(0, true, 1000, &c);
    assert_eq!(t.y, 65_500);

    // ...and a report back to airborne in the same tick suppresses it again.
    let mut s2 = PlayerMotionState::new();
    s2.on_grounded_changed(true);
    s2.on_grounded_changed(false);
    let t2 = s2.step(0, true, 1000, &c);
    assert_eq!(t2.y, -2000);
}

#[test]
fn repeated_grounded_report_changes_nothing() {
    let c = demo_config();

    let mut once = PlayerMotionState::new();
    once.on_grounded_changed(true);

    let mut twice = PlayerMotionState::new();
    twice.on_grounded_changed(true);
    twice.on_grounded_changed(true);

    assert_eq!(once.grounded, twice.grounded);
    assert_eq!(once.velocity, twice.velocity);
    let t_once = once.step(1, true, 1000, &c);
    let t_twice = twice.step(1, true, 1000, &c);
    assert_eq!(t_once, t_twice);
}

#[test]
fn ground_friction_shrinks_speed_toward_zero() {
    // Grounded, no input, zero gravity: |vx| strictly shrinks each tick
    // while nonzero, and never leaves zero again.
    let c = MotionConfig { gravity: 0, ..demo_config() };
    let mut s = PlayerMotionState::new();
    s.on_grounded_changed(true);
    s.velocity.x = 5000;
    let mut last = s.velocity.x;
    for _ in 0..200 {
        let t = s.step(0, false, 1000, &c);
        assert_eq!(t.y, 0);
        if last != 0 {
            assert!(t.x.abs() < last.abs());
        } else {
            assert_eq!(t.x, 0);
        }
        last = t.x;
    }
    assert_eq!(last, 0);
}

#[test]
fn ground_friction_shrinks_negative_speed_toward_zero() {
    let c = MotionConfig { gravity: 0, ..demo_config() };
    let mut s = PlayerMotionState::new();
    s.on_grounded_changed(true);
    s.velocity.x = -5000;
    let mut last = s.velocity.x;
    for _ in 0..200 {
        let t = s.step(0, false, 1000, &c);
        if last != 0 {
            assert!(t.x.abs() < last.abs());
        } else {
            assert_eq!(t.x, 0);
        }
        last = t.x;
    }
    assert_eq!(last, 0);
}

#[test]
fn friction_of_one_keeps_speed() {
    let c = MotionConfig { ground_friction: SCALE, gravity: 0, ..demo_config() };
    let mut s = PlayerMotionState::new();
    s.on_grounded_changed(true);
    s.velocity.x = 5000;
    for _ in 0..10 {
        let t = s.step(0, false, 1000, &c);
        assert_eq!(t.x, 5000);
    }
}

#[test]
fn damping_rounds_toward_zero() {
    // A one-sub-unit velocity decays straight to zero on either side of zero,
    // never away from it.
    let c = MotionConfig { gravity: 0, ..demo_config() };
    let mut s = PlayerMotionState::new();
    s.on_grounded_changed(true);
    s.velocity.x = 1;
    s.velocity.y = -1;
    let t = s.step(0, false, 1000, &c);
    assert_eq!(t.x, 0);
    assert_eq!(t.y, 0);
}

#[test]
fn first_tick_walking_right() {
    // speed 1, ground friction 0.9, gravity 2, dt 1: one tick of walking
    // right from rest gives velocity (0.9, -2.0).
    let c = demo_config();
    let mut s = PlayerMotionState::new();
    s.on_grounded_changed(true);
    let t = s.step(1, false, 1000, &c);
    assert_eq!(t.x, 900);
    assert_eq!(t.y, -2000);
    assert_eq!(s.velocity, t);
    assert!(s.grounded);
}

#[test]
fn second_tick_coasting_in_air() {
    // Continuing from the first walking tick, now airborne with no input:
    // velocity (0.9 * 0.95, -2.0 * 0.95 - 2.0) = (0.855, -3.9).
    let c = demo_config();
    let mut s = PlayerMotionState::new();
    s.on_grounded_changed(true);
    s.step(1, false, 1000, &c);
    s.on_grounded_changed(false);
    let t = s.step(0, false, 1000, &c);
    assert_eq!(t.x, 855);
    assert_eq!(t.y, -3900);
}

#[test]
fn walking_left_mirrors_walking_right() {
    let c = demo_config();
    let mut s = PlayerMotionState::new();
    s.on_grounded_changed(true);
    let t = s.step(-1, false, 1000, &c);
    assert_eq!(t.x, -900);
    assert_eq!(t.y, -2000);
}

#[test]
fn drift_accumulates_across_ticks() {
    // Horizontal velocity is never reset between ticks: holding a direction
    // keeps adding speed * dt before each decay.
    let c = MotionConfig { gravity: 0, ..demo_config() };
    let mut s = PlayerMotionState::new();
    s.on_grounded_changed(true);
    let t1 = s.step(1, false, 1000, &c);
    assert_eq!(t1.x, 900);
    let t2 = s.step(1, false, 1000, &c);
    // (900 + 1000) * 0.9
    assert_eq!(t2.x, 1710);
}

#[test]
fn air_friction_applies_while_airborne() {
    let c = MotionConfig { gravity: 0, ..demo_config() };
    let mut s = PlayerMotionState::new();
    s.velocity.x = 1000;
    let t = s.step(0, false, 1000, &c);
    assert_eq!(t.x, 950);
}
