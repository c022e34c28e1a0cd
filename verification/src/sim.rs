//! The simulation controller: the whole game state, the per-tick sequence
//! (advance obstacles, advance bird, test for death, reset on death), and the
//! axis-aligned collision test.

use vstd::prelude::*;
use crate::bird::{step_bird, Bird};
use crate::config::Config;
use crate::obstacles::{
    lemma_pairs_dirs_ok, lemma_spawn_layout_wf, lemma_step_field_pairs_wf, offsets_in_range,
    pairs_wf, spawn_layout, spawn_obstacles, step_field, update_obstacles, Obstacle,
};

verus! {

/// Magnitude of an integer.
pub open spec fn abs_int(x: int) -> int {
    if x < 0 {
        -x
    } else {
        x
    }
}

/// The axis-aligned bounding-box overlap test between the bird and one
/// obstacle: both the vertical and the horizontal distance are strictly
/// inside the scaled half-extents.
pub open spec fn hits(cfg: Config, b: Bird, o: Obstacle) -> bool {
    &&& abs_int(o.y - b.y) < cfg.half_height_extent()
    &&& abs_int(o.x - b.x) < cfg.half_width_extent()
}

/// The death condition: the bird has reached the floor, or it overlaps some
/// live obstacle.
pub open spec fn bird_dead_in(cfg: Config, half_height: int, b: Bird, obs: Seq<Obstacle>) -> bool {
    ||| b.y <= -half_height
    ||| exists|j: int| 0 <= j < obs.len() && hits(cfg, b, #[trigger] obs[j])
}

/// The whole game: the immutable configuration, the window half-extents in
/// micro-units, the single bird, and the obstacle ring.
pub struct GameState {
    pub config: Config,
    pub half_width: i64,
    pub half_height: i64,
    pub bird: Bird,
    pub obstacles: Vec<Obstacle>,
}

/// Everything one tick of the simulation does, as a relation between the
/// state before and after: the field is stepped with the tick's shared
/// offset, the bird is moved, and if the moved bird is dead against the
/// stepped field the bird returns to the origin at rest while the field is
/// respawned from the given per-pair offsets; otherwise both keep their
/// stepped values.
pub open spec fn tick_rel(
    pre: GameState,
    post: GameState,
    dt: int,
    jump: bool,
    y_off: int,
    respawn: Seq<i64>,
) -> bool {
    let obs1 = step_field(pre.config, pre.half_width as int, dt, y_off, pre.obstacles@);
    let moved = step_bird(pre.config, pre.bird, dt, jump);
    &&& post.config == pre.config
    &&& post.half_width == pre.half_width
    &&& post.half_height == pre.half_height
    &&& if bird_dead_in(pre.config, pre.half_height as int, moved, obs1) {
        post.bird == Bird::at_origin() && post.obstacles@ == spawn_layout(
            pre.config,
            pre.half_width as int,
            respawn,
        )
    } else {
        post.bird == moved && post.obstacles@ == obs1
    }
}

impl GameState {
    /// The state invariant: a valid configuration, positive window
    /// half-extents, and exactly twice `obstacle_count` obstacles arranged as
    /// direction-paired pipes sharing their horizontal positions.
    pub open spec fn wf(self) -> bool {
        &&& self.config.valid()
        &&& 0 < self.half_width <= 500_000_000_000
        &&& 0 < self.half_height <= 500_000_000_000
        &&& self.obstacles@.len() == 2 * self.config.obstacle_count
        &&& pairs_wf(self.obstacles@)
    }

    /// The death condition of this state's bird against its own field.
    pub open spec fn bird_dead(self) -> bool {
        bird_dead_in(self.config, self.half_height as int, self.bird, self.obstacles@)
    }

    /// Builds the startup state: the bird at the origin at rest and a fresh
    /// field spawned from the given per-pair offsets, for a window of the
    /// given size in whole units.
    pub fn new(
        config: Config,
        window_width: u32,
        window_height: u32,
        offsets: &Vec<i64>,
    ) -> (s: GameState)
        requires
            config.valid(),
            2 <= window_width <= 1_000_000,
            2 <= window_height <= 1_000_000,
            offsets@.len() == config.obstacle_count,
            offsets_in_range(config, offsets@),
        ensures
            s.wf(),
            s.config == config,
            s.half_width == window_width as int * 500_000,
            s.half_height == window_height as int * 500_000,
            s.bird == Bird::at_origin(),
            s.obstacles@ == spawn_layout(config, window_width as int * 500_000, offsets@),
    {
        let half_width: i64 = (window_width as i64) * 500_000;
        let half_height: i64 = (window_height as i64) * 500_000;
        let obstacles: Vec<Obstacle> = spawn_obstacles(&config, half_width, offsets);
        proof {
            lemma_spawn_layout_wf(config, half_width as int, offsets@);
        }
        GameState { config, half_width, half_height, bird: Bird::new(), obstacles }
    }

    /// Evaluates the death condition: floor first, then every obstacle in
    /// turn, stopping at the first overlap.
    pub fn is_dead(&self) -> (r: bool)
        requires
            self.wf(),
        ensures
            r == self.bird_dead(),
    {
        if self.bird.y <= -self.half_height {
            return true;
        }
        let hw: i64 = self.config.get_half_width_extent();
        let hh: i64 = self.config.get_half_height_extent();
        let n: usize = self.obstacles.len();
        for j in 0..n
            invariant
                self.wf(),
                hw == self.config.half_width_extent(),
                hh == self.config.half_height_extent(),
                n == self.obstacles@.len(),
                forall|k: int| 0 <= k < j ==> !hits(self.config, self.bird, #[trigger] self.obstacles@[k]),
        {
            let o: Obstacle = self.obstacles[j];
            let dy: i128 = (o.y as i128) - (self.bird.y as i128);
            let dy_abs: i128 = if dy < 0 {
                -dy
            } else {
                dy
            };
            let dx: i128 = (o.x as i128) - (self.bird.x as i128);
            let dx_abs: i128 = if dx < 0 {
                -dx
            } else {
                dx
            };
            if dy_abs < (hh as i128) && dx_abs < (hw as i128) {
                proof {
                    assert(hits(self.config, self.bird, self.obstacles@[j as int]));
                }
                return true;
            }
        }
        false
    }

    /// Advances the bird by one tick and resolves death: moves the bird under
    /// input and gravity, tests it against the floor and the current field,
    /// and on death puts it back at the origin at rest and respawns the whole
    /// field from `respawn_offsets`.
    pub fn update_bird(&mut self, dt_ms: u32, jump: bool, respawn_offsets: &Vec<i64>)
        requires
            old(self).wf(),
            respawn_offsets@.len() == old(self).config.obstacle_count,
            offsets_in_range(old(self).config, respawn_offsets@),
        ensures
            final(self).wf(),
            final(self).config == old(self).config,
            final(self).half_width == old(self).half_width,
            final(self).half_height == old(self).half_height,
            ({
                let moved = step_bird(old(self).config, old(self).bird, dt_ms as int, jump);
                if bird_dead_in(
                    old(self).config,
                    old(self).half_height as int,
                    moved,
                    old(self).obstacles@,
                ) {
                    final(self).bird == Bird::at_origin() && final(self).obstacles@
                        == spawn_layout(
                        old(self).config,
                        old(self).half_width as int,
                        respawn_offsets@,
                    )
                } else {
                    final(self).bird == moved && final(self).obstacles@ == old(self).obstacles@
                }
            }),
    {
        let cfg: Config = self.config;
        self.bird.update_kinematics(&cfg, dt_ms, jump);
        let dead: bool = self.is_dead();
        if dead {
            self.bird = Bird::new();
            self.obstacles = spawn_obstacles(&cfg, self.half_width, respawn_offsets);
            proof {
                lemma_spawn_layout_wf(cfg, self.half_width as int, respawn_offsets@);
            }
        }
    }

    /// One full tick: advance the field with this tick's shared offset, then
    /// the bird, then resolve death against the advanced field.
    pub fn tick(&mut self, dt_ms: u32, jump: bool, y_offset: i64, respawn_offsets: &Vec<i64>)
        requires
            old(self).wf(),
            -old(self).config.offset_limit() <= y_offset <= old(self).config.offset_limit(),
            respawn_offsets@.len() == old(self).config.obstacle_count,
            offsets_in_range(old(self).config, respawn_offsets@),
        ensures
            final(self).wf(),
            tick_rel(
                *old(self),
                *final(self),
                dt_ms as int,
                jump,
                y_offset as int,
                respawn_offsets@,
            ),
    {
        let cfg: Config = self.config;
        let half_width: i64 = self.half_width;
        proof {
            lemma_pairs_dirs_ok(self.obstacles@);
        }
        update_obstacles(&cfg, half_width, dt_ms, y_offset, &mut self.obstacles);
        proof {
            lemma_step_field_pairs_wf(
                cfg,
                half_width as int,
                dt_ms as int,
                y_offset as int,
                old(self).obstacles@,
            );
        }
        self.update_bird(dt_ms, jump, respawn_offsets);
    }
}

/// Floor death: a bird at or below the floor line is dead whatever the
/// obstacles hold.
pub proof fn lemma_floor_death(cfg: Config, half_height: int, b: Bird, obs: Seq<Obstacle>)
    requires
        b.y <= -half_height,
    ensures
        bird_dead_in(cfg, half_height, b, obs),
{
}

/// Collision death, hit side: a bird at the exact position of an obstacle
/// overlaps it.
pub proof fn lemma_collision_hit(cfg: Config, b: Bird, o: Obstacle)
    requires
        cfg.valid(),
        o.x == b.x,
        o.y == b.y,
    ensures
        hits(cfg, b, o),
{
    cfg.lemma_derived_bounds();
}

/// Collision death, miss side: a bird whose horizontal distance from an
/// obstacle reaches the half-width extent does not overlap it.
pub proof fn lemma_collision_boundary(cfg: Config, b: Bird, o: Obstacle)
    requires
        abs_int(o.x - b.x) >= cfg.half_width_extent(),
    ensures
        !hits(cfg, b, o),
{
}

} // verus!
