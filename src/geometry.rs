use vstd::prelude::*;

verus! {

/// Sub-pixel units in one pixel.
pub const SUBPIXELS: i64 = 1_000_000;

/// Half a pixel in sub-pixel units.
pub const HALF_PIXEL: i64 = 500_000;

/// Longest simulated step in microseconds (a thirtieth of a second).
pub const MAX_STEP_US: u64 = 33_333;

/// Largest coordinate magnitude, in sub-pixel units, at which a tick may start.
pub const POSITION_LIMIT: i64 = 1_000_000_000_000_000_000;

/// Magnitude bound accepted by the helpers that work on candidate points.
pub const WORKING_LIMIT: i64 = 2_000_000_000_000_000_000;

/// Magnitude bound on a point handed to a tile lookup.
pub const QUERY_LIMIT: i64 = 4_000_000_000_000_000_000;

/// Bound, in whole pixels, on a rounded coordinate within `WORKING_LIMIT`.
pub const PIXEL_LIMIT: i64 = 2_000_000_000_001;

/// A sub-pixel coordinate rounded to the nearest pixel, halves away from zero.
pub open spec fn round_spec(v: int) -> int {
    if v >= 0 {
        (v + HALF_PIXEL) / (SUBPIXELS as int)
    } else {
        -((-v + HALF_PIXEL) / (SUBPIXELS as int))
    }
}

/// Rounds a sub-pixel coordinate to whole pixels.
pub fn round_to_pixel(v: i64) -> (r: i64)
    ensures
        r == round_spec(v as int),
        -WORKING_LIMIT <= v <= WORKING_LIMIT ==> -PIXEL_LIMIT <= r <= PIXEL_LIMIT,
{
    if v >= 0 {
        let q = (v as u64 + HALF_PIXEL as u64) / SUBPIXELS as u64;
        assert(q <= i64::MAX / SUBPIXELS + 1);
        q as i64
    } else {
        let magnitude = (-(v + 1)) as u64 + 1;
        let q = (magnitude + HALF_PIXEL as u64) / SUBPIXELS as u64;
        assert(q <= i64::MAX / SUBPIXELS + 1);
        -(q as i64)
    }
}

/// The step actually simulated for a frame that lasted `frame_us` microseconds.
pub fn clamp_step(frame_us: u64) -> (r: u64)
    ensures
        r == if frame_us < MAX_STEP_US { frame_us } else { MAX_STEP_US },
{
    if frame_us < MAX_STEP_US {
        frame_us
    } else {
        MAX_STEP_US
    }
}

} // verus!
