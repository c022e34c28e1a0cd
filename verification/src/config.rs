//! World configuration: the immutable tuning constants of the simulation.
//!
//! Lengths (`obstacle_width`, `obstacle_height`, `obstacle_vertical_offset_range`,
//! `obstacle_gap_size`, `obstacle_spacing`) are in whole world units;
//! `flap_force` and `obstacle_scroll_speed` are in milli-units per second;
//! `gravity` is in milli-units per second of velocity lost per millisecond
//! (numerically equal to units per second squared);
//! `velocity_to_rotation_ratio_milli` is one thousand times the divisor that
//! maps velocity to a tilt angle.

use vstd::prelude::*;

verus! {

#[derive(Clone, Copy, PartialEq, Eq, Structural, Debug)]
pub struct Config {
    /// Uniform visual scale factor applied to sprites and spacing math.
    pub pixel_ratio: i64,
    /// Upward velocity set on a jump, in milli-units per second.
    pub flap_force: i64,
    /// Velocity lost per millisecond, in milli-units per second.
    pub gravity: i64,
    /// One thousand times the divisor mapping velocity to tilt angle.
    pub velocity_to_rotation_ratio_milli: i64,
    /// Number of obstacle pairs in the ring.
    pub obstacle_count: usize,
    /// Unscaled obstacle sprite width, in units.
    pub obstacle_width: i64,
    /// Unscaled obstacle sprite height, in units.
    pub obstacle_height: i64,
    /// Half-width of the random vertical jitter of a pair's gap center, in units.
    pub obstacle_vertical_offset_range: i64,
    /// Half-gap spacing added to the centered pipe position, in units.
    pub obstacle_gap_size: i64,
    /// Unscaled horizontal distance between consecutive pairs, in units.
    pub obstacle_spacing: i64,
    /// Horizontal scroll speed, in milli-units per second.
    pub obstacle_scroll_speed: i64,
}

impl Config {
    /// Ranges under which every derived quantity below fits comfortably in `i64`.
    pub open spec fn valid(self) -> bool {
        &&& 1 <= self.pixel_ratio <= 100
        &&& 0 <= self.flap_force <= 1_000_000_000_000
        &&& 0 <= self.gravity <= 1_000_000_000
        &&& 1 <= self.velocity_to_rotation_ratio_milli <= 1_000_000_000
        &&& 1 <= self.obstacle_count <= 1024
        &&& 1 <= self.obstacle_width <= 100_000
        &&& 1 <= self.obstacle_height <= 100_000
        &&& 1 <= self.obstacle_vertical_offset_range <= 100_000
        &&& 0 <= self.obstacle_gap_size <= 100_000
        &&& 1 <= self.obstacle_spacing <= 100_000
        &&& 0 <= self.obstacle_scroll_speed <= 1_000_000_000_000
    }

    /// Half of the scaled obstacle width, in micro-units: the horizontal
    /// collision half-extent, also used for the off-screen test.
    pub open spec fn half_width_extent(self) -> int {
        self.obstacle_width * self.pixel_ratio * 500_000
    }

    /// Half of the scaled obstacle height, in micro-units: the vertical
    /// collision half-extent.
    pub open spec fn half_height_extent(self) -> int {
        self.obstacle_height * self.pixel_ratio * 500_000
    }

    /// Vertical distance from a pair's gap center line to each pipe's resting
    /// position, in micro-units.
    pub open spec fn centered_pipe_position(self) -> int {
        (self.obstacle_height * 500_000 + self.obstacle_gap_size * 1_000_000) * self.pixel_ratio
    }

    /// Largest magnitude of the random vertical offset, in micro-units.
    pub open spec fn offset_limit(self) -> int {
        self.obstacle_vertical_offset_range * self.pixel_ratio * 1_000_000
    }

    /// Scaled horizontal distance between consecutive pairs, in micro-units.
    pub open spec fn spacing_scaled(self) -> int {
        self.obstacle_spacing * self.pixel_ratio * 1_000_000
    }

    /// Full horizontal span of the obstacle ring, in micro-units: the distance
    /// a recycled obstacle is moved to the right.
    pub open spec fn ring_span(self) -> int {
        self.obstacle_count * self.spacing_scaled()
    }

    /// Bounds of the derived quantities under `valid`.
    pub proof fn lemma_derived_bounds(self)
        requires
            self.valid(),
        ensures
            0 < self.half_width_extent() <= 5_000_000_000_000,
            0 < self.half_height_extent() <= 5_000_000_000_000,
            0 < self.centered_pipe_position() <= 15_000_000_000_000,
            0 < self.offset_limit() <= 10_000_000_000_000,
            0 < self.spacing_scaled() <= 10_000_000_000_000,
            0 < self.ring_span() <= 10_240_000_000_000_000,
    {
        assert(0 < self.half_width_extent() <= 5_000_000_000_000
            && 0 < self.half_height_extent() <= 5_000_000_000_000
            && 0 < self.centered_pipe_position() <= 15_000_000_000_000
            && 0 < self.offset_limit() <= 10_000_000_000_000
            && 0 < self.spacing_scaled() <= 10_000_000_000_000
            && 0 < self.obstacle_count * self.spacing_scaled() <= 10_240_000_000_000_000) by (nonlinear_arith)
            requires
                self.valid(),
        ;
    }

    /// Half of the scaled obstacle width, executable.
    pub fn get_half_width_extent(&self) -> (r: i64)
        requires
            self.valid(),
        ensures
            r == self.half_width_extent(),
    {
        proof {
            self.lemma_derived_bounds();
            assert(self.obstacle_width * self.pixel_ratio * 500_000
                == self.obstacle_width * self.pixel_ratio * 500_000int);
            assert(0 < self.obstacle_width * self.pixel_ratio <= 10_000_000) by (nonlinear_arith)
                requires
                    self.valid(),
            ;
        }
        self.obstacle_width * self.pixel_ratio * 500_000
    }

    /// Half of the scaled obstacle height, executable.
    pub fn get_half_height_extent(&self) -> (r: i64)
        requires
            self.valid(),
        ensures
            r == self.half_height_extent(),
    {
        proof {
            assert(0 < self.obstacle_height * self.pixel_ratio <= 10_000_000) by (nonlinear_arith)
                requires
                    self.valid(),
            ;
        }
        self.obstacle_height * self.pixel_ratio * 500_000
    }

    /// Largest magnitude of the random vertical offset, executable.
    pub fn get_offset_limit(&self) -> (r: i64)
        requires
            self.valid(),
        ensures
            r == self.offset_limit(),
    {
        proof {
            assert(0 < self.obstacle_vertical_offset_range * self.pixel_ratio <= 10_000_000)
                by (nonlinear_arith)
                requires
                    self.valid(),
            ;
        }
        self.obstacle_vertical_offset_range * self.pixel_ratio * 1_000_000
    }

    /// Scaled spacing between pairs, executable.
    pub fn get_spacing_scaled(&self) -> (r: i64)
        requires
            self.valid(),
        ensures
            r == self.spacing_scaled(),
    {
        proof {
            assert(0 < self.obstacle_spacing * self.pixel_ratio <= 10_000_000) by (nonlinear_arith)
                requires
                    self.valid(),
            ;
        }
        self.obstacle_spacing * self.pixel_ratio * 1_000_000
    }

    /// Full span of the obstacle ring, executable.
    pub fn get_ring_span(&self) -> (r: i64)
        requires
            self.valid(),
        ensures
            r == self.ring_span(),
    {
        let spacing: i64 = self.get_spacing_scaled();
        proof {
            self.lemma_derived_bounds();
            assert(0 < self.obstacle_count * self.spacing_scaled() <= 10_240_000_000_000_000)
                by (nonlinear_arith)
                requires
                    self.valid(),
                    0 < self.spacing_scaled() <= 10_000_000_000_000,
            ;
        }
        (self.obstacle_count as i64) * spacing
    }

    /// The reference tuning: a 4x pixel scale, five obstacle pairs,
    /// a flap of 500 units/s against 2000 units/s^2 of gravity.
    pub open spec fn standard_spec() -> Config {
        Config {
            pixel_ratio: 4,
            flap_force: 500_000,
            gravity: 2000,
            velocity_to_rotation_ratio_milli: 7500,
            obstacle_count: 5,
            obstacle_width: 32,
            obstacle_height: 144,
            obstacle_vertical_offset_range: 30,
            obstacle_gap_size: 15,
            obstacle_spacing: 60,
            obstacle_scroll_speed: 150_000,
        }
    }

    /// Builds the reference tuning.
    pub fn standard() -> (c: Config)
        ensures
            c == Config::standard_spec(),
            c.valid(),
    {
        Config {
            pixel_ratio: 4,
            flap_force: 500_000,
            gravity: 2000,
            velocity_to_rotation_ratio_milli: 7500,
            obstacle_count: 5,
            obstacle_width: 32,
            obstacle_height: 144,
            obstacle_vertical_offset_range: 30,
            obstacle_gap_size: 15,
            obstacle_spacing: 60,
            obstacle_scroll_speed: 150_000,
        }
    }
}

} // verus!
