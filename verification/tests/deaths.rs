use flappy::bird::Bird;
use flappy::config::Config;
use flappy::sim::GameState;

fn fresh_state() -> GameState {
    let cfg = Config::standard();
    let offsets: Vec<i64> = vec![10, 20, 30, 40, 50];
    GameState::new(cfg, 512, 512, &offsets)
}

#[test]
fn floor_death_resets_within_the_tick() {
    let mut state = fresh_state();
    // just below the floor line of a 512-high window
    state.bird.y = -256_000_001;
    let respawn: Vec<i64> = vec![1, 2, 3, 4, 5];
    state.tick(0, false, 0, &respawn);
    assert_eq!(state.bird, Bird { x: 0, y: 0, y_velocity: 0 });
    assert_eq!(state.obstacles.len(), 10);
    // the respawned field has the startup shape, with the new offsets
    for i in 0..5usize {
        assert_eq!(state.obstacles[2 * i].x, 256_000_000 + 240_000_000 * i as i64);
        assert_eq!(state.obstacles[2 * i].y, 348_000_000 + respawn[i]);
        assert_eq!(state.obstacles[2 * i + 1].y, -348_000_000 + respawn[i]);
    }
}

#[test]
fn exactly_at_floor_line_is_dead() {
    let mut state = fresh_state();
    state.bird.y = -256_000_000;
    assert!(state.is_dead());
    state.bird.y = -255_999_999;
    assert!(!state.is_dead());
}

#[test]
fn collision_death_at_exact_obstacle_position() {
    let mut state = fresh_state();
    // exactly on the first top pipe
    state.bird.x = 256_000_000;
    state.bird.y = 348_000_000 + 10;
    assert!(state.is_dead());
    let respawn: Vec<i64> = vec![0; 5];
    state.tick(0, false, 0, &respawn);
    assert_eq!(state.bird, Bird { x: 0, y: 0, y_velocity: 0 });
}

#[test]
fn no_collision_at_half_width_distance() {
    let mut state = fresh_state();
    // horizontal distance exactly the scaled half width: 32 * 4 / 2 = 64 units
    state.bird.x = 256_000_000 - 64_000_000;
    state.bird.y = 348_000_000 + 10;
    assert!(!state.is_dead());
    // one micro-unit closer overlaps
    state.bird.x = 256_000_000 - 63_999_999;
    assert!(state.is_dead());
}

#[test]
fn no_collision_at_half_height_distance() {
    let mut state = fresh_state();
    state.bird.x = 256_000_000;
    // vertical distance exactly the scaled half height: 144 * 4 / 2 = 288 units
    state.bird.y = 348_000_000 + 10 - 288_000_000;
    assert!(!state.is_dead());
    state.bird.y = 348_000_000 + 10 - 287_999_999;
    assert!(state.is_dead());
}

#[test]
fn surviving_tick_keeps_field_and_moves_bird() {
    let mut state = fresh_state();
    let respawn: Vec<i64> = vec![9; 5];
    let xs_before: Vec<i64> = state.obstacles.iter().map(|o| o.x).collect();
    state.tick(16, false, 0, &respawn);
    // alive: bird fell, obstacles scrolled by 150 units/s * 16 ms = 2.4 units
    assert_eq!(state.bird.y_velocity, -32_000);
    assert_eq!(state.bird.y, -512_000);
    for (o, x0) in state.obstacles.iter().zip(xs_before.iter()) {
        assert_eq!(o.x, x0 - 2_400_000);
    }
}
