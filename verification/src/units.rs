use vstd::prelude::*;

verus! {

/// Ticks in one second: a tick lasts 1/60 s.
pub const TICKS_PER_SECOND: i64 = 60;

/// Position units in one pixel.
///
/// With 3600 subpixels to the pixel and 60 ticks to the second, a velocity
/// of one pixel per second moves a body by 60 subpixels in a tick, and an
/// acceleration of one pixel per second squared changes a velocity by one
/// unit in a tick.
pub const SUBPIXELS: i64 = 3600;

/// Velocity units (subpixels per tick) in one pixel per second.
pub const SPEED_UNITS: i64 = 60;

/// Scale units in a scale of one: a scale is counted in hundredths.
pub const SCALE_ONE: i64 = 100;

/// Nanoseconds in one second.
pub const NANOS_PER_SECOND: u64 = 1_000_000_000;

/// Largest window edge, in pixels, that the rules accept.
pub const WIN_MAX: i64 = 1_000_000_000;

/// Largest magnitude of a scale, in hundredths, that the rules accept.
pub const SCALE_MAX: i64 = 1_000_000;

/// Largest magnitude of a coordinate or a velocity with which a game can
/// be ticked.
pub const LIMIT: i64 = 1_000_000_000_000_000_000;

/// Whether the magnitude of `v` is at most `LIMIT`.
pub open spec fn small(v: int) -> bool {
    -LIMIT <= v <= LIMIT
}

/// Whether `v` can be held in an `i64`.
pub open spec fn fits(v: int) -> bool {
    i64::MIN <= v <= i64::MAX
}

/// Mathematical absolute value.
pub open spec fn abs(v: int) -> int {
    if v < 0 {
        -v
    } else {
        v
    }
}

/// A pair of integers: a velocity, or the size of a box.
#[derive(Clone, Copy, Debug, PartialEq, Eq, Structural)]
pub struct Vec2 {
    pub x: i64,
    pub y: i64,
}

/// A triple of integers: a position with its depth, or a scale.
#[derive(Clone, Copy, Debug, PartialEq, Eq, Structural)]
pub struct Vec3 {
    pub x: i64,
    pub y: i64,
    pub z: i64,
}

/// Where an entity is drawn: its position in subpixels (the depth `z` in
/// whole layers) and its scale in hundredths. The sign of `scale.x` is the
/// direction the entity faces.
#[derive(Clone, Copy, Debug, PartialEq, Eq, Structural)]
pub struct Transform {
    pub translation: Vec3,
    pub scale: Vec3,
}

impl Transform {
    /// The scale is small enough for box sizes to be computed.
    pub open spec fn scale_in_range(self) -> bool {
        &&& -SCALE_MAX <= self.scale.x <= SCALE_MAX
        &&& -SCALE_MAX <= self.scale.y <= SCALE_MAX
    }
}

/// Size of the window, in whole pixels. The origin is its centre.
#[derive(Clone, Copy, Debug, PartialEq, Eq, Structural)]
pub struct WinSize {
    pub w: i64,
    pub h: i64,
}

impl WinSize {
    /// Both edges are non-negative and at most `WIN_MAX`.
    pub open spec fn wf(self) -> bool {
        &&& 0 <= self.w <= WIN_MAX
        &&& 0 <= self.h <= WIN_MAX
    }

    /// Height of the ground line, in subpixels: 160 pixels above the lower
    /// edge of the window.
    pub open spec fn spec_bottom(self) -> int {
        160 * SUBPIXELS - self.h * (SUBPIXELS / 2)
    }

    /// Horizontal start position, in subpixels: 135 pixels right of the
    /// left edge of the window.
    pub open spec fn spec_left(self) -> int {
        135 * SUBPIXELS - self.w * (SUBPIXELS / 2)
    }

    /// Executable form of `spec_bottom`.
    pub fn bottom(&self) -> (y: i64)
        requires
            self.wf(),
        ensures
            y == self.spec_bottom(),
    {
        160 * SUBPIXELS - self.h * (SUBPIXELS / 2)
    }

    /// Executable form of `spec_left`.
    pub fn left(&self) -> (x: i64)
        requires
            self.wf(),
        ensures
            x == self.spec_left(),
    {
        135 * SUBPIXELS - self.w * (SUBPIXELS / 2)
    }
}

} // verus!
