use flappy::bird::{bird_rotation_millideg, Bird};
use flappy::config::Config;

#[test]
fn gravity_monotonic_over_ticks() {
    let cfg = Config::standard();
    let mut bird = Bird::new();
    let mut prev: i64 = bird.y_velocity;
    for _ in 0..100 {
        bird.update_kinematics(&cfg, 16, false);
        // gravity 2000 milli-units/s per ms over 16 ms: exactly 32_000 lost
        assert_eq!(bird.y_velocity, prev - 32_000);
        assert!(bird.y_velocity < prev);
        prev = bird.y_velocity;
    }
}

#[test]
fn flap_overrides_any_prior_velocity() {
    let cfg = Config::standard();
    let mut falling = Bird { x: 0, y: 0, y_velocity: -400_000 };
    falling.update_kinematics(&cfg, 16, true);
    assert_eq!(falling.y_velocity, 500_000 - 32_000);

    let mut rising = Bird { x: 0, y: 0, y_velocity: 123_456 };
    rising.update_kinematics(&cfg, 16, true);
    assert_eq!(rising.y_velocity, 500_000 - 32_000);
}

#[test]
fn position_integrates_with_new_velocity() {
    let cfg = Config::standard();
    let mut bird = Bird::new();
    bird.update_kinematics(&cfg, 16, false);
    // velocity first: -32_000 milli-units/s, then y += v * dt
    assert_eq!(bird.y_velocity, -32_000);
    assert_eq!(bird.y, -512_000);
    assert_eq!(bird.x, 0);
}

#[test]
fn flap_frame_still_applies_gravity_to_position() {
    let cfg = Config::standard();
    let mut bird = Bird { x: 0, y: -1_000_000, y_velocity: -900_000 };
    bird.update_kinematics(&cfg, 16, true);
    assert_eq!(bird.y_velocity, 468_000);
    assert_eq!(bird.y, -1_000_000 + 468_000 * 16);
}

#[test]
fn rotation_exact_values() {
    let cfg = Config::standard();
    // 75 units/s divided by 7.5 gives 10 degrees
    assert_eq!(bird_rotation_millideg(&cfg, 75_000), 10_000);
    assert_eq!(bird_rotation_millideg(&cfg, -75_000), -10_000);
    assert_eq!(bird_rotation_millideg(&cfg, 0), 0);
    // truncation toward zero
    assert_eq!(bird_rotation_millideg(&cfg, 1_000), 133);
}

#[test]
fn rotation_clamped_at_ninety_degrees() {
    let cfg = Config::standard();
    assert_eq!(bird_rotation_millideg(&cfg, 10_000_000), 90_000);
    assert_eq!(bird_rotation_millideg(&cfg, -10_000_000), -90_000);
    assert_eq!(bird_rotation_millideg(&cfg, i64::MAX), 90_000);
    assert_eq!(bird_rotation_millideg(&cfg, i64::MIN), -90_000);
}

#[test]
fn unbounded_velocity_saturates_instead_of_overflowing() {
    let cfg = Config::standard();
    let mut bird = Bird { x: 0, y: 0, y_velocity: i64::MIN + 10 };
    bird.update_kinematics(&cfg, u32::MAX, false);
    assert_eq!(bird.y_velocity, i64::MIN);
    assert_eq!(bird.y, i64::MIN);
}
