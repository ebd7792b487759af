//! The blocks that the ground of a level is built from.
use vstd::prelude::*;
use crate::editing_helpers::GridSize;
use crate::killing::KillPlayerWhenBelow;
use crate::math::{UVec2, Vec2, Vec3, HALF_UNIT, UNIT};
use crate::planting::FertileGround;
use crate::world::{Actor, BelongsToLevel, World};

verus! {

/// The size for which the cells of a block were last laid out.
#[derive(Clone, Copy, Debug, PartialEq, Eq, Structural)]
pub struct PreviousSize(pub UVec2);

impl Default for PreviousSize {
    fn default() -> (previous: Self)
        ensures
            previous.0 == (UVec2 { x: 0, y: 0 }),
    {
        PreviousSize(UVec2 { x: 0, y: 0 })
    }
}

/// Says whether the cells of a block are to be laid out again: always where
/// no size is remembered, as in the game, and in the editor where the size
/// has changed, which is then remembered.
pub fn should_populate(size: &GridSize, previous_size: &mut Option<PreviousSize>) -> (populate: bool)
    ensures
        populate == match *old(previous_size) {
            Some(previous) => previous.0 != size.0,
            None => true,
        },
        *final(previous_size) == match *old(previous_size) {
            Some(_) => Some(PreviousSize(size.0)),
            None => None,
        },
{
    match *previous_size {
        Some(previous) => {
            if size.0.x == previous.0.x && size.0.y == previous.0.y {
                false
            } else {
                *previous_size = Some(PreviousSize(size.0));
                true
            }
        },
        None => true,
    }
}

/// The middle of the cell in the given row and column of a block of the
/// given size, seen from the middle of the block.
pub open spec fn cell(size: UVec2, row: int, col: int) -> Vec2 {
    Vec2 {
        x: (-size.x * HALF_UNIT + HALF_UNIT + col * UNIT) as i64,
        y: (-size.y * HALF_UNIT + HALF_UNIT + row * UNIT) as i64,
    }
}

/// The first `cols` cells of a row.
pub open spec fn row_cells(size: UVec2, row: int, cols: int) -> Seq<Vec2>
    decreases cols,
{
    if cols <= 0 {
        Seq::empty()
    } else {
        row_cells(size, row, cols - 1).push(cell(size, row, cols - 1))
    }
}

/// The cells of the first `rows` rows, row by row.
pub open spec fn cells(size: UVec2, rows: int) -> Seq<Vec2>
    decreases rows,
{
    if rows <= 0 {
        Seq::empty()
    } else {
        cells(size, rows - 1) + row_cells(size, rows - 1, size.x as int)
    }
}

/// Lays out the cells of a block: one for every row and column, a unit apart,
/// around the middle of the block.
pub fn block_cells(size: &GridSize) -> (laid_out: Vec<Vec2>)
    ensures
        laid_out@ == cells(size.0, size.0.y as int),
{
    let width = size.0.x;
    let height = size.0.y;
    let left: i64 = HALF_UNIT - (width as i64) * HALF_UNIT;
    let bottom: i64 = HALF_UNIT - (height as i64) * HALF_UNIT;
    let mut laid_out: Vec<Vec2> = Vec::new();
    let mut row: u32 = 0;
    while row < height
        invariant
            row <= height,
            width == size.0.x,
            height == size.0.y,
            left == HALF_UNIT - width * HALF_UNIT,
            bottom == HALF_UNIT - height * HALF_UNIT,
            laid_out@ == cells(size.0, row as int),
        decreases height - row,
    {
        let ghost before = laid_out@;
        let mut col: u32 = 0;
        while col < width
            invariant
                col <= width,
                row < height,
                width == size.0.x,
                height == size.0.y,
                left == HALF_UNIT - width * HALF_UNIT,
                bottom == HALF_UNIT - height * HALF_UNIT,
                laid_out@ == before + row_cells(size.0, row as int, col as int),
            decreases width - col,
        {
            laid_out.push(
                Vec2 { x: left + (col as i64) * UNIT, y: bottom + (row as i64) * UNIT },
            );
            col += 1;
        }
        row += 1;
    }
    laid_out
}

/// A block as it comes with the level: ground of the given size in cells, on
/// which seeds take root, and below which the player dies of the fall.
pub open spec fn new_block(position: Vec3, size: GridSize) -> Actor {
    Actor {
        grid_size: Some(size),
        fertile_ground: Some(FertileGround),
        kill_player_when_below: Some(KillPlayerWhenBelow),
        belongs_to_level: Some(BelongsToLevel),
        ..Actor::spec_bare(0, position)
    }
}

/// Asks for a block of the given size at `position` and hands out its id.
pub fn populate_block(world: &mut World, position: Vec3, size: GridSize) -> (id: u64)
    requires
        old(world).wf(),
        old(world)@.has_room(1),
        position.in_bounds(),
    ensures
        final(world).wf(),
        id == old(world)@.next_id,
        final(world)@ == old(world)@.with_spawn(new_block(position, size)),
{
    let mut block = Actor::bare(0, position);
    block.grid_size = Some(size);
    block.fertile_ground = Some(FertileGround);
    block.kill_player_when_below = Some(KillPlayerWhenBelow);
    block.belongs_to_level = Some(BelongsToLevel);
    world.spawn(block)
}

} // verus!
