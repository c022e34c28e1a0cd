use flappy::config::Config;
use flappy::obstacles::{get_centered_pipe_position, spawn_obstacle, spawn_obstacles, update_obstacles};
use flappy::sim::GameState;

#[test]
fn standard_config_derived_values() {
    let cfg = Config::standard();
    // (144 / 2 + 15) * 4 units
    assert_eq!(get_centered_pipe_position(&cfg), 348_000_000);
    assert_eq!(cfg.get_half_width_extent(), 64_000_000);
    assert_eq!(cfg.get_half_height_extent(), 288_000_000);
    assert_eq!(cfg.get_offset_limit(), 120_000_000);
    assert_eq!(cfg.get_spacing_scaled(), 240_000_000);
    // 5 * 60 * 4 units
    assert_eq!(cfg.get_ring_span(), 1_200_000_000);
}

#[test]
fn spawn_layout_shape() {
    let cfg = Config::standard();
    let offsets: Vec<i64> = vec![10, 20, 30, 40, 50];
    let obs = spawn_obstacles(&cfg, 256_000_000, &offsets);
    assert_eq!(obs.len(), 10);
    for i in 0..5usize {
        let top = &obs[2 * i];
        let bottom = &obs[2 * i + 1];
        assert_eq!(top.x, 256_000_000 + 240_000_000 * i as i64);
        assert_eq!(top.x, bottom.x);
        assert_eq!(top.pipe_direction, 1);
        assert_eq!(bottom.pipe_direction, -1);
        let off = offsets[i];
        assert_eq!(top.y, 348_000_000 + off);
        assert_eq!(bottom.y, -348_000_000 + off);
    }
}

#[test]
fn recycle_moves_by_ring_span_with_shared_offset() {
    let cfg = Config::standard();
    // A pair just left of the recycle threshold of a 512-wide window:
    // it crosses once its right edge (x + 64 units) passes -256 units.
    let mut obs = vec![
        spawn_obstacle(-319_000_000, 348_000_000, 1),
        spawn_obstacle(-319_000_000, -348_000_000, -1),
        spawn_obstacle(0, 348_000_000, 1),
        spawn_obstacle(0, -348_000_000, -1),
    ];
    // one second of scroll at 150 units/s: 150 units
    update_obstacles(&cfg, 256_000_000, 1000, 7_000_000, &mut obs);
    // scrolled to -469 units, off screen, recycled 1200 units to the right
    assert_eq!(obs[0].x, -469_000_000 + 1_200_000_000);
    assert_eq!(obs[1].x, obs[0].x);
    // recycled y: centered pipe position plus direction times the shared offset
    assert_eq!(obs[0].y, 348_000_000 + 7_000_000);
    assert_eq!(obs[1].y, 348_000_000 - 7_000_000);
    assert_eq!(obs[0].pipe_direction, 1);
    assert_eq!(obs[1].pipe_direction, -1);
    // the second pair only scrolls and keeps its y
    assert_eq!(obs[2].x, -150_000_000);
    assert_eq!(obs[3].x, -150_000_000);
    assert_eq!(obs[2].y, 348_000_000);
    assert_eq!(obs[3].y, -348_000_000);
}

#[test]
fn obstacle_count_constant_over_many_ticks() {
    let cfg = Config::standard();
    let offsets: Vec<i64> = vec![0; 5];
    let mut state = GameState::new(cfg, 512, 512, &offsets);
    for t in 0..500 {
        state.tick(16, t % 20 == 0, 0, &offsets);
        assert_eq!(state.obstacles.len(), 10);
    }
}

#[test]
fn pairs_share_x_over_many_ticks() {
    let cfg = Config::standard();
    let offsets: Vec<i64> = vec![5_000_000; 5];
    let mut state = GameState::new(cfg, 512, 512, &offsets);
    for _ in 0..2000 {
        state.tick(16, true, 3_000_000, &offsets);
        for i in 0..5usize {
            assert_eq!(state.obstacles[2 * i].x, state.obstacles[2 * i + 1].x);
            assert_eq!(state.obstacles[2 * i].pipe_direction, 1);
            assert_eq!(state.obstacles[2 * i + 1].pipe_direction, -1);
        }
    }
}
