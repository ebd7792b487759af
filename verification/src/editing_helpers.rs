//! Helpers of the level editor: the grid that entities snap to, and the
//! knobs that resize them.
use vstd::prelude::*;
use crate::math::{UVec2, Vec2, Vec3, HALF_UNIT, UNIT};

verus! {

/// The most cells that a knob can drag an entity to.
pub const CELLS_MAX: i64 = 2_147_483_647;

/// Marks an entity that the editor keeps on the grid.
#[derive(Clone, Copy, Debug, PartialEq, Eq, Structural)]
pub struct SnapToGrid;

/// The size of an entity in grid cells.
#[derive(Clone, Copy, Debug, PartialEq, Eq, Structural)]
pub struct GridSize(pub UVec2);

impl Default for GridSize {
    fn default() -> (size: Self)
        ensures
            size.0 == (UVec2 { x: 1, y: 1 }),
    {
        Self(UVec2 { x: 1, y: 1 })
    }
}

/// The whole number of units nearest to `length`, a half counting away from
/// zero.
pub open spec fn round_cells(length: int) -> int {
    if length >= 0 {
        (length + HALF_UNIT) / (UNIT as int)
    } else {
        -((-length + HALF_UNIT) / (UNIT as int))
    }
}

/// Rounds a length to whole units.
pub fn rounded_cells(length: i64) -> (rounded: i64)
    requires
        -9_000_000_000_000_000_000 <= length <= 9_000_000_000_000_000_000,
    ensures
        rounded == round_cells(length as int),
        -9_000_000_000_001 <= rounded <= 9_000_000_000_001,
{
    if length >= 0 {
        (length + HALF_UNIT) / UNIT
    } else {
        -((-length + HALF_UNIT) / UNIT)
    }
}

/// A coordinate on the grid: the edges of an entity that is `cells` cells
/// wide fall on whole units.
pub open spec fn snapped(coord: int, cells: u32) -> int {
    round_cells(coord - cells * HALF_UNIT) * UNIT + cells * HALF_UNIT
}

fn snap(coord: i64, cells: u32) -> (on_grid: i64)
    requires
        crate::math::coord_in_bounds(coord),
    ensures
        on_grid == snapped(coord as int, cells),
{
    let offset: i64 = (cells as i64) * HALF_UNIT;
    rounded_cells(coord - offset) * UNIT + offset
}

/// Puts a position on the grid, along the first two axes. An entity without
/// a size counts as one cell wide and high.
pub fn apply_snap_to_grid(position: Vec3, size: Option<GridSize>) -> (on_grid: Vec3)
    requires
        position.in_bounds(),
    ensures
        on_grid.x == snapped(
            position.x as int,
            match size {
                Some(size) => size.0.x,
                None => 1,
            },
        ),
        on_grid.y == snapped(
            position.y as int,
            match size {
                Some(size) => size.0.y,
                None => 1,
            },
        ),
        on_grid.z == position.z,
{
    let size = match size {
        Some(size) => size,
        None => GridSize::default(),
    };
    Vec3 { x: snap(position.x, size.0.x), y: snap(position.y, size.0.y), z: position.z }
}

/// The corner that the knob `knob` sits on: the signs of its two
/// coordinates, counted from the upper right corner round through the upper
/// left and the lower left to the lower right.
pub open spec fn diagonal(knob: usize) -> (int, int) {
    if knob == 0 {
        (1, 1)
    } else if knob == 1 {
        (-1, 1)
    } else if knob == 2 {
        (-1, -1)
    } else {
        (1, -1)
    }
}

fn corner(knob: usize) -> (signs: (i64, i64))
    ensures
        signs.0 == diagonal(knob).0,
        signs.1 == diagonal(knob).1,
        signs.0 == 1 || signs.0 == -1,
        signs.1 == 1 || signs.1 == -1,
{
    if knob == 0 {
        (1, 1)
    } else if knob == 1 {
        (-1, 1)
    } else if knob == 2 {
        (-1, -1)
    } else {
        (1, -1)
    }
}

/// `value` on the side `sign`.
fn signed(sign: i64, value: i64) -> (product: i64)
    requires
        sign == 1 || sign == -1,
        -9_000_000_000_000_000_000 <= value <= 9_000_000_000_000_000_000,
    ensures
        product == sign * value,
{
    if sign == 1 {
        value
    } else {
        -value
    }
}

/// Where a knob sits, seen from the middle of the entity: on its corner.
pub open spec fn knob_offset(size: GridSize, knob: usize) -> Vec2 {
    Vec2 {
        x: (diagonal(knob).0 * size.0.x * HALF_UNIT) as i64,
        y: (diagonal(knob).1 * size.0.y * HALF_UNIT) as i64,
    }
}

fn offset_of(size: GridSize, knob: usize) -> (offset: Vec2)
    ensures
        offset == knob_offset(size, knob),
        -2_147_483_648_000_000 <= offset.x <= 2_147_483_648_000_000,
        -2_147_483_648_000_000 <= offset.y <= 2_147_483_648_000_000,
{
    let signs = corner(knob);
    let half_width: i64 = (size.0.x as i64) * HALF_UNIT;
    let half_height: i64 = (size.0.y as i64) * HALF_UNIT;
    Vec2 { x: signed(signs.0, half_width), y: signed(signs.1, half_height) }
}

/// Where the knob `knob` of an entity is shown.
pub fn resize_knob(position: Vec3, size: GridSize, knob: usize) -> (shown: Vec3)
    requires
        position.in_bounds(),
    ensures
        shown.x == position.x + knob_offset(size, knob).x,
        shown.y == position.y + knob_offset(size, knob).y,
        shown.z == position.z,
{
    let offset = offset_of(size, knob);
    Vec3 { x: position.x + offset.x, y: position.y + offset.y, z: position.z }
}

/// How many cells an entity spans that reaches `length` from the corner that
/// stays, along an axis on which the knob is on the side `sign`: the length
/// in whole units, at least one, and no more than [`CELLS_MAX`].
pub open spec fn dragged_cells(length: int, sign: int) -> u32 {
    let cells = round_cells(length);
    let bounded = if cells > CELLS_MAX {
        CELLS_MAX as int
    } else if cells < -CELLS_MAX {
        -(CELLS_MAX as int)
    } else {
        cells
    };
    if bounded * sign < 1 {
        1
    } else {
        (bounded * sign) as u32
    }
}

fn drag(length: i64, sign: i64) -> (cells: u32)
    requires
        -9_000_000_000_000_000_000 <= length <= 9_000_000_000_000_000_000,
        sign == 1 || sign == -1,
    ensures
        cells == dragged_cells(length as int, sign as int),
        1 <= cells <= CELLS_MAX,
{
    let cells = rounded_cells(length);
    let bounded = if cells > CELLS_MAX {
        CELLS_MAX
    } else if cells < -CELLS_MAX {
        -CELLS_MAX
    } else {
        cells
    };
    let along = signed(sign, bounded);
    if along < 1 {
        1
    } else {
        along as u32
    }
}

/// The entity after the knob `knob` was dragged to `new_marker_pos`: the
/// opposite corner stays where it is, the entity spans the whole cells up to
/// the knob, at least one each way, and its middle moves accordingly.
pub fn grid_resize(position: Vec3, size: GridSize, knob: usize, new_marker_pos: Vec3) -> (resized: (
    Vec3,
    GridSize,
))
    requires
        position.in_bounds(),
        new_marker_pos.in_bounds(),
    ensures
        ({
            let offset = knob_offset(size, knob);
            let signs = diagonal(knob);
            let width = dragged_cells(new_marker_pos.x - (position.x - offset.x), signs.0);
            let height = dragged_cells(new_marker_pos.y - (position.y - offset.y), signs.1);
            &&& resized.1 == GridSize(UVec2 { x: width, y: height })
            &&& resized.0.x == position.x - offset.x + signs.0 * width * HALF_UNIT
            &&& resized.0.y == position.y - offset.y + signs.1 * height * HALF_UNIT
            &&& resized.0.z == position.z
        }),
{
    let offset = offset_of(size, knob);
    let signs = corner(knob);
    let other_corner = Vec2 { x: position.x - offset.x, y: position.y - offset.y };
    let width = drag(new_marker_pos.x - other_corner.x, signs.0);
    let height = drag(new_marker_pos.y - other_corner.y, signs.1);
    let half_width: i64 = (width as i64) * HALF_UNIT;
    let half_height: i64 = (height as i64) * HALF_UNIT;
    (
        Vec3 {
            x: other_corner.x + signed(signs.0, half_width),
            y: other_corner.y + signed(signs.1, half_height),
            z: position.z,
        },
        GridSize(UVec2 { x: width, y: height }),
    )
}

} // verus!
