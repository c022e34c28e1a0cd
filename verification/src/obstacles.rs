//! The scrolling obstacle field: a fixed ring of pipe pairs laid out at even
//! spacing, scrolled left every tick, and recycled to the back of the ring
//! once fully off screen.
//!
//! The field is a `Vec<Obstacle>` of length twice the pair count: the
//! obstacle at index `2 * i` is pair `i`'s pipe with direction `+1`, the one
//! at `2 * i + 1` its partner with direction `-1`; partners always share the
//! same horizontal position.

use vstd::prelude::*;
use crate::arith::{clip, sub_mul_clipped};
use crate::config::Config;

verus! {

/// One pipe. Position is in micro-units; `pipe_direction` is `+1` or `-1`
/// and never changes for the obstacle's whole existence.
#[derive(Clone, Copy, PartialEq, Eq, Structural, Debug)]
pub struct Obstacle {
    pub x: i64,
    pub y: i64,
    pub pipe_direction: i64,
}

/// A pipe direction is one of the two unit signs.
pub open spec fn dir_ok(o: Obstacle) -> bool {
    o.pipe_direction == 1 || o.pipe_direction == -1
}

/// Builds one obstacle record.
pub fn spawn_obstacle(x: i64, y: i64, pipe_direction: i64) -> (o: Obstacle)
    requires
        pipe_direction == 1 || pipe_direction == -1,
    ensures
        o == (Obstacle { x, y, pipe_direction }),
{
    Obstacle { x, y, pipe_direction }
}

/// Vertical distance from a pair's gap center to each pipe's resting
/// position, in micro-units.
pub fn get_centered_pipe_position(cfg: &Config) -> (r: i64)
    requires
        cfg.valid(),
    ensures
        r == cfg.centered_pipe_position(),
{
    let inner: i64 = cfg.obstacle_height * 500_000 + cfg.obstacle_gap_size * 1_000_000;
    proof {
        assert(0 < inner * cfg.pixel_ratio <= 15_000_000_000_000) by (nonlinear_arith)
            requires
                0 < inner <= 150_000_000_000,
                1 <= cfg.pixel_ratio <= 100,
        ;
    }
    inner * cfg.pixel_ratio
}

/// Horizontal position of pair `i` at spawn: the window's right edge plus
/// `i` times the scaled spacing.
pub open spec fn spawn_x(cfg: Config, half_width: int, i: int) -> int {
    half_width + cfg.spacing_scaled() * i
}

/// The freshly spawned field: for each pair `i`, two pipes sharing
/// `spawn_x(cfg, half_width, i)`, placed at the centered pipe position above
/// and below the gap center, both shifted by the pair's random offset.
pub open spec fn spawn_layout(cfg: Config, half_width: int, offsets: Seq<i64>) -> Seq<Obstacle> {
    Seq::new((2 * cfg.obstacle_count) as nat, |j: int| {
        let i = j / 2;
        if j % 2 == 0 {
            Obstacle {
                x: spawn_x(cfg, half_width, i) as i64,
                y: (cfg.centered_pipe_position() + offsets[i]) as i64,
                pipe_direction: 1,
            }
        } else {
            Obstacle {
                x: spawn_x(cfg, half_width, i) as i64,
                y: (-cfg.centered_pipe_position() + offsets[i]) as i64,
                pipe_direction: -1i64,
            }
        }
    })
}

/// Every offset handed to the field lies within the configured jitter range.
pub open spec fn offsets_in_range(cfg: Config, offsets: Seq<i64>) -> bool {
    forall|i: int|
        0 <= i < offsets.len() ==> -cfg.offset_limit() <= #[trigger] offsets[i]
            <= cfg.offset_limit()
}

/// Builds the spawned field for the given per-pair offsets. Used both at
/// startup and for the full-field respawn after a death: the two layouts are
/// identical in shape.
pub fn spawn_obstacles(cfg: &Config, half_width: i64, offsets: &Vec<i64>) -> (obs: Vec<Obstacle>)
    requires
        cfg.valid(),
        0 < half_width <= 500_000_000_000,
        offsets@.len() == cfg.obstacle_count,
        offsets_in_range(*cfg, offsets@),
    ensures
        obs@ == spawn_layout(*cfg, half_width as int, offsets@),
{
    proof {
        cfg.lemma_derived_bounds();
    }
    let ghost layout = spawn_layout(*cfg, half_width as int, offsets@);
    let centered: i64 = get_centered_pipe_position(cfg);
    let spacing: i64 = cfg.get_spacing_scaled();
    let count: usize = cfg.obstacle_count;
    let mut obs: Vec<Obstacle> = Vec::new();
    for i in 0..count
        invariant
            cfg.valid(),
            0 < half_width <= 500_000_000_000,
            offsets@.len() == cfg.obstacle_count,
            offsets_in_range(*cfg, offsets@),
            count == cfg.obstacle_count,
            centered == cfg.centered_pipe_position(),
            spacing == cfg.spacing_scaled(),
            0 < cfg.spacing_scaled() <= 10_000_000_000_000,
            0 < cfg.centered_pipe_position() <= 15_000_000_000_000,
            0 < cfg.offset_limit() <= 10_000_000_000_000,
            layout == spawn_layout(*cfg, half_width as int, offsets@),
            obs@.len() == 2 * i,
            forall|j: int| 0 <= j < 2 * i ==> obs@[j] == layout[j],
    {
        proof {
            assert(0 <= cfg.spacing_scaled() * i <= 10_000_000_000_000 * 1024) by (nonlinear_arith)
                requires
                    0 < cfg.spacing_scaled() <= 10_000_000_000_000,
                    0 <= i < 1024,
            ;
        }
        let x_pos: i64 = half_width + spacing * (i as i64);
        let y_off: i64 = offsets[i];
        obs.push(spawn_obstacle(x_pos, centered + y_off, 1));
        obs.push(spawn_obstacle(x_pos, -centered + y_off, -1));
        proof {
            assert((2 * i as int) / 2 == i as int);
            assert((2 * i as int + 1) / 2 == i as int);
            assert(obs@[2 * i as int] == layout[2 * i as int]);
            assert(obs@[2 * i as int + 1] == layout[2 * i as int + 1]);
        }
    }
    proof {
        assert(obs@ =~= layout);
    }
    obs
}

/// Shape of the field at index `j`: directions alternate, `+1` at even
/// indices, and the even obstacle of each pair shares its horizontal
/// position with its partner at the next index.
pub open spec fn pair_entry_ok(obs: Seq<Obstacle>, j: int) -> bool {
    &&& obs[j].pipe_direction == (if j % 2 == 0 {
        1int
    } else {
        -1int
    })
    &&& (j % 2 == 0 && j + 1 < obs.len() ==> obs[j].x == obs[j + 1].x)
}

/// The whole field consists of direction-paired obstacles sharing their
/// horizontal positions.
pub open spec fn pairs_wf(obs: Seq<Obstacle>) -> bool {
    forall|j: int| 0 <= j < obs.len() ==> #[trigger] pair_entry_ok(obs, j)
}

/// In a pair-shaped field every direction is a unit sign.
pub proof fn lemma_pairs_dirs_ok(obs: Seq<Obstacle>)
    requires
        pairs_wf(obs),
    ensures
        forall|j: int| 0 <= j < obs.len() ==> dir_ok(#[trigger] obs[j]),
{
    assert forall|j: int| 0 <= j < obs.len() implies dir_ok(#[trigger] obs[j]) by {
        assert(pair_entry_ok(obs, j));
    }
}

/// A freshly spawned field is pair-shaped.
pub proof fn lemma_spawn_layout_wf(cfg: Config, half_width: int, offsets: Seq<i64>)
    requires
        cfg.valid(),
        offsets.len() == cfg.obstacle_count,
    ensures
        spawn_layout(cfg, half_width, offsets).len() == 2 * cfg.obstacle_count,
        pairs_wf(spawn_layout(cfg, half_width, offsets)),
{
    let s = spawn_layout(cfg, half_width, offsets);
    assert forall|j: int| 0 <= j < s.len() implies #[trigger] pair_entry_ok(s, j) by {
        if j % 2 == 0 {
            assert(j / 2 == (j + 1) / 2);
        }
    }
}

/// A tick keeps the field pair-shaped: directions never change, and partners
/// that enter the tick sharing a horizontal position leave it still sharing
/// one, since the scroll and the recycle test depend on that position alone.
pub proof fn lemma_step_field_pairs_wf(
    cfg: Config,
    half_width: int,
    dt: int,
    y_off: int,
    obs: Seq<Obstacle>,
)
    requires
        pairs_wf(obs),
    ensures
        step_field(cfg, half_width, dt, y_off, obs).len() == obs.len(),
        pairs_wf(step_field(cfg, half_width, dt, y_off, obs)),
{
    let s = step_field(cfg, half_width, dt, y_off, obs);
    assert forall|j: int| 0 <= j < s.len() implies #[trigger] pair_entry_ok(s, j) by {
        assert(pair_entry_ok(obs, j));
        assert(s[j] == step_obstacle(cfg, half_width, dt, y_off, obs[j]));
        if j % 2 == 0 && j + 1 < obs.len() {
            assert(s[j + 1] == step_obstacle(cfg, half_width, dt, y_off, obs[j + 1]));
        }
    }
}

/// An obstacle's horizontal position after one tick of scrolling.
pub open spec fn scroll_x(cfg: Config, x: int, dt: int) -> int {
    clip(x - cfg.obstacle_scroll_speed * dt)
}

/// The recycle test: the obstacle's right edge has passed fully left of the
/// window's left edge.
pub open spec fn off_screen(cfg: Config, half_width: int, x: int) -> bool {
    x + cfg.half_width_extent() < -half_width
}

/// One obstacle after one tick: scrolled left; then, if fully off screen,
/// moved right by the full ring span and given a new vertical position of the
/// centered pipe position plus its direction times the tick's shared offset.
pub open spec fn step_obstacle(cfg: Config, half_width: int, dt: int, y_off: int, o: Obstacle) -> Obstacle {
    let x1 = scroll_x(cfg, o.x as int, dt);
    if off_screen(cfg, half_width, x1) {
        Obstacle {
            x: (x1 + cfg.ring_span()) as i64,
            y: (cfg.centered_pipe_position() + o.pipe_direction * y_off) as i64,
            pipe_direction: o.pipe_direction,
        }
    } else {
        Obstacle { x: x1 as i64, y: o.y, pipe_direction: o.pipe_direction }
    }
}

/// The whole field after one tick, every obstacle stepped with the same
/// shared offset.
pub open spec fn step_field(cfg: Config, half_width: int, dt: int, y_off: int, obs: Seq<Obstacle>) -> Seq<Obstacle> {
    Seq::new(obs.len(), |j: int| step_obstacle(cfg, half_width, dt, y_off, obs[j]))
}

/// Advances the field by one tick: scrolls every obstacle left by
/// `scroll_speed * dt` and recycles each one that has scrolled fully off
/// screen, using the single shared offset `y_offset` drawn for this tick.
pub fn update_obstacles(
    cfg: &Config,
    half_width: i64,
    dt_ms: u32,
    y_offset: i64,
    obstacles: &mut Vec<Obstacle>,
)
    requires
        cfg.valid(),
        0 < half_width <= 500_000_000_000,
        -cfg.offset_limit() <= y_offset <= cfg.offset_limit(),
        forall|j: int| 0 <= j < old(obstacles)@.len() ==> dir_ok(#[trigger] old(obstacles)@[j]),
    ensures
        final(obstacles)@ == step_field(
            *cfg,
            half_width as int,
            dt_ms as int,
            y_offset as int,
            old(obstacles)@,
        ),
{
    proof {
        cfg.lemma_derived_bounds();
    }
    let ghost stepped = step_field(*cfg, half_width as int, dt_ms as int, y_offset as int, old(obstacles)@);
    let ext: i64 = cfg.get_half_width_extent();
    let span: i64 = cfg.get_ring_span();
    let centered: i64 = get_centered_pipe_position(cfg);
    let n: usize = obstacles.len();
    for j in 0..n
        invariant
            cfg.valid(),
            0 < half_width <= 500_000_000_000,
            -cfg.offset_limit() <= y_offset <= cfg.offset_limit(),
            0 < cfg.offset_limit() <= 10_000_000_000_000,
            0 < cfg.centered_pipe_position() <= 15_000_000_000_000,
            0 < cfg.half_width_extent() <= 5_000_000_000_000,
            0 < cfg.ring_span() <= 10_240_000_000_000_000,
            ext == cfg.half_width_extent(),
            span == cfg.ring_span(),
            centered == cfg.centered_pipe_position(),
            n == old(obstacles)@.len(),
            obstacles@.len() == n,
            stepped == step_field(*cfg, half_width as int, dt_ms as int, y_offset as int, old(obstacles)@),
            forall|k: int| 0 <= k < old(obstacles)@.len() ==> dir_ok(#[trigger] old(obstacles)@[k]),
            forall|k: int| 0 <= k < j ==> obstacles@[k] == stepped[k],
            forall|k: int| j <= k < n ==> obstacles@[k] == old(obstacles)@[k],
    {
        let o: Obstacle = obstacles[j];
        let x1: i64 = sub_mul_clipped(o.x, cfg.obstacle_scroll_speed, dt_ms);
        if (x1 as i128) + (ext as i128) < -(half_width as i128) {
            let new_x: i64 = x1 + span;
            let new_y: i64 = if o.pipe_direction == 1 {
                centered + y_offset
            } else {
                centered - y_offset
            };
            obstacles.set(j, Obstacle { x: new_x, y: new_y, pipe_direction: o.pipe_direction });
        } else {
            obstacles.set(j, Obstacle { x: x1, y: o.y, pipe_direction: o.pipe_direction });
        }
        proof {
            assert(obstacles@[j as int] == stepped[j as int]);
        }
    }
    proof {
        assert(obstacles@ =~= stepped);
    }
}

/// Ring recycling: a tick never changes the number of obstacles, and any
/// obstacle whose scrolled position crosses the recycle threshold has its
/// horizontal position increased by exactly the full ring span while its
/// vertical position becomes the centered pipe position plus its direction
/// times the tick's shared offset; any other obstacle only scrolls.
pub proof fn lemma_ring_recycling(
    cfg: Config,
    half_width: int,
    dt: int,
    y_off: int,
    obs: Seq<Obstacle>,
)
    requires
        cfg.valid(),
        0 < half_width <= 500_000_000_000,
        -cfg.offset_limit() <= y_off <= cfg.offset_limit(),
        forall|j: int| 0 <= j < obs.len() ==> dir_ok(#[trigger] obs[j]),
    ensures
        step_field(cfg, half_width, dt, y_off, obs).len() == obs.len(),
        forall|j: int|
            0 <= j < obs.len() && off_screen(cfg, half_width, scroll_x(cfg, obs[j].x as int, dt))
                ==> {
                let s = #[trigger] step_field(cfg, half_width, dt, y_off, obs)[j];
                &&& s.x == scroll_x(cfg, obs[j].x as int, dt) + cfg.ring_span()
                &&& s.y == cfg.centered_pipe_position() + obs[j].pipe_direction * y_off
                &&& s.pipe_direction == obs[j].pipe_direction
            },
        forall|j: int|
            0 <= j < obs.len() && !off_screen(cfg, half_width, scroll_x(cfg, obs[j].x as int, dt))
                ==> {
                let s = #[trigger] step_field(cfg, half_width, dt, y_off, obs)[j];
                &&& s.x == scroll_x(cfg, obs[j].x as int, dt)
                &&& s.y == obs[j].y
                &&& s.pipe_direction == obs[j].pipe_direction
            },
{
    cfg.lemma_derived_bounds();
    assert forall|j: int| 0 <= j < obs.len() implies {
        let x1 = scroll_x(cfg, obs[j].x as int, dt);
        let s = #[trigger] step_field(cfg, half_width, dt, y_off, obs)[j];
        &&& off_screen(cfg, half_width, x1) ==> s.x == x1 + cfg.ring_span() && s.y
            == cfg.centered_pipe_position() + obs[j].pipe_direction * y_off && s.pipe_direction
            == obs[j].pipe_direction
        &&& !off_screen(cfg, half_width, x1) ==> s.x == x1 && s.y == obs[j].y && s.pipe_direction
            == obs[j].pipe_direction
    } by {
        let x1 = scroll_x(cfg, obs[j].x as int, dt);
        crate::arith::lemma_clip_range(obs[j].x - cfg.obstacle_scroll_speed * dt);
        if off_screen(cfg, half_width, x1) {
            assert(x1 + cfg.ring_span() < cfg.ring_span());
            assert(i64::MIN <= x1 + cfg.ring_span() <= i64::MAX);
            assert(i64::MIN <= cfg.centered_pipe_position() + obs[j].pipe_direction * y_off
                <= i64::MAX);
        }
    }
}

/// Pair symmetry on recycling: when the two obstacles of a pair enter a tick
/// sharing one horizontal position and opposite directions, they leave it
/// still sharing one horizontal position, and on a tick that recycles them
/// their vertical positions differ from the centered pipe position only by
/// the sign their directions give the tick's shared offset.
pub proof fn lemma_pair_symmetry(
    cfg: Config,
    half_width: int,
    dt: int,
    y_off: int,
    obs: Seq<Obstacle>,
    i: int,
)
    requires
        cfg.valid(),
        0 < half_width <= 500_000_000_000,
        -cfg.offset_limit() <= y_off <= cfg.offset_limit(),
        forall|j: int| 0 <= j < obs.len() ==> dir_ok(#[trigger] obs[j]),
        0 <= 2 * i + 1 < obs.len(),
        obs[2 * i].x == obs[2 * i + 1].x,
        obs[2 * i].pipe_direction == 1,
        obs[2 * i + 1].pipe_direction == -1,
    ensures
        ({
            let s = step_field(cfg, half_width, dt, y_off, obs);
            &&& s[2 * i].x == s[2 * i + 1].x
            &&& off_screen(cfg, half_width, scroll_x(cfg, obs[2 * i].x as int, dt)) ==> {
                &&& s[2 * i].y == cfg.centered_pipe_position() + y_off
                &&& s[2 * i + 1].y == cfg.centered_pipe_position() - y_off
            }
        }),
{
    lemma_ring_recycling(cfg, half_width, dt, y_off, obs);
    assert(step_field(cfg, half_width, dt, y_off, obs)[2 * i]
        == step_obstacle(cfg, half_width, dt, y_off, obs[2 * i]));
    assert(step_field(cfg, half_width, dt, y_off, obs)[2 * i + 1]
        == step_obstacle(cfg, half_width, dt, y_off, obs[2 * i + 1]));
}

/// Pair symmetry at spawn: in a freshly spawned field the two obstacles of
/// each pair share one horizontal position and opposite directions, and sit
/// at the centered pipe position above and below the gap center, both shifted
/// by the pair's one random offset.
pub proof fn lemma_spawn_pairs(cfg: Config, half_width: int, offsets: Seq<i64>, i: int)
    requires
        cfg.valid(),
        0 < half_width <= 500_000_000_000,
        offsets.len() == cfg.obstacle_count,
        offsets_in_range(cfg, offsets),
        0 <= i < cfg.obstacle_count,
    ensures
        ({
            let s = spawn_layout(cfg, half_width, offsets);
            &&& s.len() == 2 * cfg.obstacle_count
            &&& s[2 * i].x == s[2 * i + 1].x
            &&& s[2 * i].x == spawn_x(cfg, half_width, i)
            &&& s[2 * i].pipe_direction == 1
            &&& s[2 * i + 1].pipe_direction == -1
            &&& s[2 * i].y == cfg.centered_pipe_position() + offsets[i]
            &&& s[2 * i + 1].y == -cfg.centered_pipe_position() + offsets[i]
        }),
{
    cfg.lemma_derived_bounds();
    assert((2 * i) / 2 == i);
    assert((2 * i + 1) / 2 == i);
    assert(0 <= cfg.spacing_scaled() * i <= 10_000_000_000_000 * 1024) by (nonlinear_arith)
        requires
            0 < cfg.spacing_scaled() <= 10_000_000_000_000,
            0 <= i < 1024,
    ;
    assert(i64::MIN <= spawn_x(cfg, half_width, i) <= i64::MAX);
    assert(i64::MIN <= cfg.centered_pipe_position() + offsets[i] <= i64::MAX);
    assert(i64::MIN <= -cfg.centered_pipe_position() + offsets[i] <= i64::MAX);
}

} // verus!
