use vstd::prelude::*;

use crate::geometry::{round_spec, round_to_pixel, SUBPIXELS, WORKING_LIMIT};
use crate::tilemap::{Layer, TileGrid, Tilemap};

verus! {

/// Offset of the crouch: upward-facing rays move down by this many pixels.
pub const DUCK_DISTANCE: i64 = 8;

/// A candidate position, in sub-pixel units, that the probes accept.
pub open spec fn probe_range(x: int, y: int) -> bool {
    -WORKING_LIMIT <= x <= WORKING_LIMIT && -WORKING_LIMIT <= y <= WORKING_LIMIT
}

/// A crouch offset that the probes accept.
pub open spec fn duck_ok(duck: int) -> bool {
    0 <= duck <= DUCK_DISTANCE
}

/// Whether the collision layer is empty at the whole-pixel point `(px, py)`.
pub open spec fn pixel_clear(map: TileGrid, px: int, py: int) -> bool {
    map.is_empty_at(Layer::Collision, px * SUBPIXELS, py * SUBPIXELS)
}

/// Left rays at `(1, 1 + duck)` and `(1, 14)` from the rounded position.
pub open spec fn left_clear(map: TileGrid, x: int, y: int, duck: int) -> bool {
    let rx = round_spec(x);
    let ry = round_spec(y);
    pixel_clear(map, rx + 1, ry + 1 + duck) && pixel_clear(map, rx + 1, ry + 14)
}

/// Right rays at `(8, 1 + duck)` and `(8, 14)` from the rounded position.
pub open spec fn right_clear(map: TileGrid, x: int, y: int, duck: int) -> bool {
    let rx = round_spec(x);
    let ry = round_spec(y);
    pixel_clear(map, rx + 8, ry + 1 + duck) && pixel_clear(map, rx + 8, ry + 14)
}

/// Upward rays at `(3, 3 + duck)` and `(6, 3 + duck)` from the rounded position.
pub open spec fn up_clear(map: TileGrid, x: int, y: int, duck: int) -> bool {
    let rx = round_spec(x);
    let ry = round_spec(y);
    pixel_clear(map, rx + 3, ry + 3 + duck) && pixel_clear(map, rx + 6, ry + 3 + duck)
}

/// Feet rays at `(3, 16)` and `(6, 16)` from the exact sub-pixel position.
pub open spec fn down_clear(map: TileGrid, x: int, y: int) -> bool {
    &&& map.is_empty_at(Layer::Collision, x + 3 * SUBPIXELS, y + 16 * SUBPIXELS)
    &&& map.is_empty_at(Layer::Collision, x + 6 * SUBPIXELS, y + 16 * SUBPIXELS)
}

fn clear_at(tilemap: &Tilemap, px: i64, py: i64) -> (r: bool)
    requires
        -3_000_000_000_000 <= px <= 3_000_000_000_000,
        -3_000_000_000_000 <= py <= 3_000_000_000_000,
    ensures
        r == pixel_clear(tilemap@, px as int, py as int),
{
    tilemap.get_id_at_position(Layer::Collision, px * SUBPIXELS, py * SUBPIXELS).is_none()
}

/// Whether a character whose box would stand at `(new_x, new_y)` may move left.
pub fn can_walk_left(new_x: i64, new_y: i64, tilemap: &Tilemap, duck_distance: i64) -> (r: bool)
    requires
        probe_range(new_x as int, new_y as int),
        duck_ok(duck_distance as int),
    ensures
        r == left_clear(tilemap@, new_x as int, new_y as int, duck_distance as int),
{
    let rx = round_to_pixel(new_x);
    let ry = round_to_pixel(new_y);
    clear_at(tilemap, rx + 1, ry + 1 + duck_distance) && clear_at(tilemap, rx + 1, ry + 14)
}

/// Whether a character whose box would stand at `(new_x, new_y)` may move right.
pub fn can_walk_right(new_x: i64, new_y: i64, tilemap: &Tilemap, duck_distance: i64) -> (r: bool)
    requires
        probe_range(new_x as int, new_y as int),
        duck_ok(duck_distance as int),
    ensures
        r == right_clear(tilemap@, new_x as int, new_y as int, duck_distance as int),
{
    let rx = round_to_pixel(new_x);
    let ry = round_to_pixel(new_y);
    clear_at(tilemap, rx + 8, ry + 1 + duck_distance) && clear_at(tilemap, rx + 8, ry + 14)
}

/// Whether a character whose box would stand at `(new_x, new_y)` may move up.
pub fn can_jump_up(new_x: i64, new_y: i64, tilemap: &Tilemap, duck_distance: i64) -> (r: bool)
    requires
        probe_range(new_x as int, new_y as int),
        duck_ok(duck_distance as int),
    ensures
        r == up_clear(tilemap@, new_x as int, new_y as int, duck_distance as int),
{
    let rx = round_to_pixel(new_x);
    let ry = round_to_pixel(new_y);
    clear_at(tilemap, rx + 3, ry + 3 + duck_distance) && clear_at(
        tilemap,
        rx + 6,
        ry + 3 + duck_distance,
    )
}

/// Whether a character whose box would stand at `(new_x, new_y)` may move down.
pub fn can_walk_down(new_x: i64, new_y: i64, tilemap: &Tilemap) -> (r: bool)
    requires
        probe_range(new_x as int, new_y as int),
    ensures
        r == down_clear(tilemap@, new_x as int, new_y as int),
{
    tilemap.get_id_at_position(Layer::Collision, new_x + 3 * SUBPIXELS, new_y + 16 * SUBPIXELS).is_none()
        && tilemap.get_id_at_position(
        Layer::Collision,
        new_x + 6 * SUBPIXELS,
        new_y + 16 * SUBPIXELS,
    ).is_none()
}

} // verus!
