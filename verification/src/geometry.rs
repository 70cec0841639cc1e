//! Fixed sizes, tunable constants and the viewport.
//!
//! All lengths are fixed-point integers: one world unit is [`UNIT`] position
//! sub-units. Time is counted in ticks of one millisecond, and a velocity is a
//! number of sub-units per tick. With these units the gravity and launch
//! constants are whole numbers and an integration step `position + velocity *
//! dt` is exact.

use vstd::prelude::*;

verus! {

/// Position sub-units in one world unit.
pub const UNIT: i64 = 1_000_000;

/// Position sub-units in half a world unit.
pub const HALF_UNIT: i64 = 500_000;

/// Ticks in one second.
pub const TICKS_PER_SECOND: i64 = 1_000;

/// Width of the player box.
pub const PLAYER_WIDTH: i64 = 64_000_000;

/// Height of the player box.
pub const PLAYER_HEIGHT: i64 = 64_000_000;

/// Width shared by all platforms.
pub const PLATFORM_WIDTH: i64 = 100_000_000;

/// Height shared by all platforms.
pub const PLATFORM_HEIGHT: i64 = 20_000_000;

/// Downward acceleration: velocity lost per tick of flight
/// (1500 world units per second squared).
pub const GRAVITY: i64 = 1_500;

/// Vertical launch velocity gained per tick of charge
/// (2000 world units per second for each second of charge).
pub const LAUNCH_SCALE: i64 = 2_000;

/// Height of the first platform above the bottom edge of the viewport.
pub const FIRST_PLATFORM_RISE: i64 = 50_000_000;

/// Least height of a generated platform above the highest live platform.
pub const SPAWN_MIN_RISE: i64 = 50_000_000;

/// Greatest height of a generated platform above the highest live platform.
pub const SPAWN_MAX_RISE: i64 = 150_000_000;

/// Distance of the camera deadzone from each viewport edge.
pub const DEADZONE_MARGIN: i64 = 50_000_000;

/// Number of random placements tried before the deterministic fallback.
pub const MAX_SPAWN_ATTEMPTS: usize = 64;

/// Bound on the absolute value of every platform coordinate. A platform that
/// would be generated above it is placed on it.
pub const PLATFORM_LIMIT: i64 = 4_000_000_000_000_000_000;

/// Bound on the absolute value of every player coordinate; flight stops at
/// it. It leaves room to stand on a platform at the platform limit, and keeps
/// every sum of a coordinate and a viewport extent inside `i64`.
pub const WORLD_LIMIT: i64 = 5_000_000_000_000_000_000;

/// `v` moved to the nearest point of the interval `[lo, hi]`.
pub open spec fn confine(v: int, lo: int, hi: int) -> int {
    if v < lo {
        lo
    } else if v > hi {
        hi
    } else {
        v
    }
}

/// `v` confined to the player's coordinate range.
pub open spec fn confine_world(v: int) -> int {
    confine(v, -(WORLD_LIMIT as int), WORLD_LIMIT as int)
}

/// `v` confined to the range of `i64`.
pub open spec fn confine_i64(v: int) -> int {
    confine(v, i64::MIN as int, i64::MAX as int)
}

/// The quotient of `a` by a positive `b`, rounded toward zero.
pub open spec fn div_toward_zero(a: int, b: int) -> int {
    if a >= 0 {
        a / b
    } else {
        -((-a) / b)
    }
}

/// The distance between two coordinates.
pub open spec fn distance(a: int, b: int) -> int {
    if a >= b {
        a - b
    } else {
        b - a
    }
}

/// Computes [`confine`] on machine integers.
pub fn confine_to(v: i128, lo: i64, hi: i64) -> (r: i64)
    requires
        lo <= hi,
    ensures
        r == confine(v as int, lo as int, hi as int),
{
    if v < lo as i128 {
        lo
    } else if v > hi as i128 {
        hi
    } else {
        v as i64
    }
}

/// A whole number of world units in position sub-units.
pub fn units(n: i32) -> (r: i64)
    ensures
        r == n * UNIT,
{
    let wide: i64 = n as i64;
    wide * UNIT
}

/// A position in the world.
#[derive(Clone, Copy, Debug, PartialEq, Eq, Structural)]
pub struct Point {
    pub x: i64,
    pub y: i64,
}

/// The visible area, in whole world units.
#[derive(Clone, Copy, Debug, PartialEq, Eq, Structural)]
pub struct Viewport {
    pub width: u32,
    pub height: u32,
}

impl Viewport {
    /// Half the viewport width, in sub-units.
    pub open spec fn spec_half_width(self) -> int {
        self.width as int * HALF_UNIT as int
    }

    /// Half the viewport height, in sub-units.
    pub open spec fn spec_half_height(self) -> int {
        self.height as int * HALF_UNIT as int
    }

    /// The height below which the player counts as fallen out of the world.
    pub open spec fn spec_bottom_limit(self) -> int {
        -self.spec_half_height() - PLAYER_HEIGHT as int
    }

    /// The height of the platform a session starts with.
    pub open spec fn spec_first_platform_y(self) -> int {
        -self.spec_half_height() + FIRST_PLATFORM_RISE as int
    }

    /// The least x at which a platform is generated.
    pub open spec fn spec_spawn_min_x(self) -> int {
        -self.spec_half_width() + PLATFORM_WIDTH as int / 2
    }

    /// The greatest x at which a platform is generated.
    pub open spec fn spec_spawn_max_x(self) -> int {
        self.spec_half_width() - PLATFORM_WIDTH as int / 2
    }

    /// The greatest camera-relative coordinate inside the deadzone, given half
    /// the viewport's extent on that axis. The least one is its negation.
    pub open spec fn deadzone_reach(half_extent: int) -> int {
        half_extent - DEADZONE_MARGIN as int
    }

    /// Computes [`Viewport::spec_half_width`].
    pub fn half_width(self) -> (r: i64)
        ensures
            r == self.spec_half_width(),
            0 <= r <= u32::MAX * HALF_UNIT,
    {
        let wide: i64 = self.width as i64;
        wide * HALF_UNIT
    }

    /// Computes [`Viewport::spec_half_height`].
    pub fn half_height(self) -> (r: i64)
        ensures
            r == self.spec_half_height(),
            0 <= r <= u32::MAX * HALF_UNIT,
    {
        let wide: i64 = self.height as i64;
        wide * HALF_UNIT
    }

    /// Computes [`Viewport::spec_bottom_limit`].
    pub fn bottom_limit(self) -> (r: i64)
        ensures
            r == self.spec_bottom_limit(),
    {
        -self.half_height() - PLAYER_HEIGHT
    }

    /// Computes [`Viewport::spec_first_platform_y`].
    pub fn first_platform_y(self) -> (r: i64)
        ensures
            r == self.spec_first_platform_y(),
            -(PLATFORM_LIMIT as int) <= r <= PLATFORM_LIMIT,
    {
        -self.half_height() + FIRST_PLATFORM_RISE
    }

    /// Computes [`Viewport::spec_spawn_min_x`].
    pub fn spawn_min_x(self) -> (r: i64)
        ensures
            r == self.spec_spawn_min_x(),
    {
        -self.half_width() + PLATFORM_WIDTH / 2
    }

    /// Computes [`Viewport::spec_spawn_max_x`].
    pub fn spawn_max_x(self) -> (r: i64)
        ensures
            r == self.spec_spawn_max_x(),
    {
        self.half_width() - PLATFORM_WIDTH / 2
    }
}

} // verus!
