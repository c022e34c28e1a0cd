use flappy::config::Config;
use flappy::rng::{draw_offsets, generate_offset};
use flappy::sim::GameState;

#[test]
fn end_to_end_reference_run() {
    // 512 x 512 window, 4x pixel ratio, five obstacle pairs
    let cfg = Config::standard();
    assert_eq!(cfg.pixel_ratio, 4);
    assert_eq!(cfg.obstacle_count, 5);
    let offsets: Vec<i64> = vec![10, 20, 30, 40, 50];
    let mut state = GameState::new(cfg, 512, 512, &offsets);

    // startup: exactly ten obstacles, first pair at x = 256 units
    assert_eq!(state.obstacles.len(), 10);
    assert_eq!(state.obstacles[0].x, 256_000_000);
    assert_eq!(state.obstacles[1].x, 256_000_000);

    // play a while: flap every 20th tick, never dying
    for t in 0..200 {
        state.tick(16, t % 20 == 0, 0, &offsets);
        assert_eq!(state.obstacles.len(), 10);
    }

    // force a floor collision
    state.bird.y = -300_000_000;
    let respawn: Vec<i64> = vec![-7, 7, -7, 7, -7];
    state.tick(16, false, 0, &respawn);

    // the startup layout shape recurs with the new offsets
    assert_eq!(state.bird.y, 0);
    assert_eq!(state.bird.y_velocity, 0);
    assert_eq!(state.obstacles.len(), 10);
    for i in 0..5usize {
        assert_eq!(state.obstacles[2 * i].x, 256_000_000 + 240_000_000 * i as i64);
        assert_eq!(state.obstacles[2 * i].x, state.obstacles[2 * i + 1].x);
        assert_eq!(state.obstacles[2 * i].y, 348_000_000 + respawn[i]);
        assert_eq!(state.obstacles[2 * i + 1].y, -348_000_000 + respawn[i]);
    }
}

#[test]
fn generated_offsets_stay_in_range() {
    let cfg = Config::standard();
    for _ in 0..200 {
        let off = generate_offset(&cfg);
        assert!(-120_000_000 <= off && off < 120_000_000);
    }
    let offsets = draw_offsets(&cfg);
    assert_eq!(offsets.len(), 5);
    for off in offsets {
        assert!(-120_000_000 <= off && off < 120_000_000);
    }
}

#[test]
fn random_run_keeps_the_invariants() {
    let cfg = Config::standard();
    let mut state = GameState::new_random(cfg, 512, 512);
    assert_eq!(state.obstacles.len(), 10);
    assert_eq!(state.obstacles[0].x, 256_000_000);
    for o in state.obstacles.iter() {
        // y within the centered position plus the jitter range
        let centered = if o.pipe_direction == 1 { 348_000_000 } else { -348_000_000 };
        assert!((o.y - centered).abs() < 120_000_000);
    }
    for t in 0..500 {
        state.tick_random(16, t % 15 == 0);
        assert_eq!(state.obstacles.len(), 10);
        for i in 0..5usize {
            assert_eq!(state.obstacles[2 * i].x, state.obstacles[2 * i + 1].x);
        }
    }
}
