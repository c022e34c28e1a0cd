//! The randomness boundary: one trusted wrapper around the random number
//! generator, and the verified functions that draw the vertical offsets and
//! run a tick with fresh randomness.
//!
//! Every function here states what holds of every possible draw; the
//! deterministic simulation in the other modules takes the drawn values as
//! arguments and is verified for all of them.

use vstd::prelude::*;
use rand::Rng;
use crate::bird::Bird;
use crate::config::Config;
use crate::obstacles::{offsets_in_range, spawn_layout};
use crate::sim::{tick_rel, GameState};

verus! {

/// Relies on rand::Rng::gen_range over a half-open i64 range: the result is
/// drawn from `[lo, hi)`, and the call panics only when the range is empty.
#[verifier::external_body]
fn random_in_range(lo: i64, hi: i64) -> (r: i64)
    requires
        lo < hi,
    ensures
        lo <= r < hi,
{
    rand::thread_rng().gen_range(lo..hi)
}

/// Draws one fresh vertical offset: a random value within the configured
/// jitter range, scaled to micro-units.
pub fn generate_offset(cfg: &Config) -> (r: i64)
    requires
        cfg.valid(),
    ensures
        -cfg.offset_limit() <= r < cfg.offset_limit(),
{
    proof {
        cfg.lemma_derived_bounds();
    }
    let limit: i64 = cfg.get_offset_limit();
    random_in_range(-limit, limit)
}

/// Draws one fresh offset per obstacle pair, for a full-field spawn.
pub fn draw_offsets(cfg: &Config) -> (v: Vec<i64>)
    requires
        cfg.valid(),
    ensures
        v@.len() == cfg.obstacle_count,
        offsets_in_range(*cfg, v@),
{
    let count: usize = cfg.obstacle_count;
    let mut v: Vec<i64> = Vec::new();
    for i in 0..count
        invariant
            cfg.valid(),
            v@.len() == i,
            offsets_in_range(*cfg, v@),
    {
        let off: i64 = generate_offset(cfg);
        v.push(off);
    }
    v
}

impl GameState {
    /// Builds the startup state with freshly drawn per-pair offsets: however
    /// the draws come out, the result is a spawned layout for offsets within
    /// the configured jitter range.
    pub fn new_random(config: Config, window_width: u32, window_height: u32) -> (s: GameState)
        requires
            config.valid(),
            2 <= window_width <= 1_000_000,
            2 <= window_height <= 1_000_000,
        ensures
            s.wf(),
            s.config == config,
            s.half_width == window_width as int * 500_000,
            s.half_height == window_height as int * 500_000,
            s.bird == Bird::at_origin(),
            exists|offsets: Seq<i64>|
                offsets.len() == config.obstacle_count && offsets_in_range(config, offsets)
                    && s.obstacles@ == #[trigger] spawn_layout(
                    config,
                    window_width as int * 500_000,
                    offsets,
                ),
    {
        let offsets: Vec<i64> = draw_offsets(&config);
        let s: GameState = GameState::new(config, window_width, window_height, &offsets);
        proof {
            assert(s.obstacles@ == spawn_layout(config, window_width as int * 500_000, offsets@));
        }
        s
    }

    /// One full tick with fresh randomness: draws the tick's shared recycle
    /// offset and the per-pair respawn offsets, then runs the deterministic
    /// tick on them. However the draws come out, the new state is related to
    /// the old one by `tick_rel` for some offsets within the configured
    /// jitter range.
    pub fn tick_random(&mut self, dt_ms: u32, jump: bool)
        requires
            old(self).wf(),
        ensures
            final(self).wf(),
            exists|y_off: i64, respawn: Seq<i64>|
                {
                    &&& -old(self).config.offset_limit() <= y_off <= old(
                        self,
                    ).config.offset_limit()
                    &&& respawn.len() == old(self).config.obstacle_count
                    &&& offsets_in_range(old(self).config, respawn)
                    &&& #[trigger] tick_rel(
                        *old(self),
                        *final(self),
                        dt_ms as int,
                        jump,
                        y_off as int,
                        respawn,
                    )
                },
    {
        let cfg: Config = self.config;
        let y_off: i64 = generate_offset(&cfg);
        let respawn: Vec<i64> = draw_offsets(&cfg);
        self.tick(dt_ms, jump, y_off, &respawn);
        proof {
            assert(tick_rel(*old(self), *self, dt_ms as int, jump, y_off as int, respawn@));
        }
    }
}

} // verus!
