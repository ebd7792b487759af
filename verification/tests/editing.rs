use gardening_gun::arena::{block_cells, populate_block, should_populate, PreviousSize};
use gardening_gun::editing_helpers::{
    apply_snap_to_grid, grid_resize, resize_knob, rounded_cells, GridSize,
};
use gardening_gun::math::{UVec2, Vec2, Vec3, UNIT};
use gardening_gun::world::World;

fn size(x: u32, y: u32) -> GridSize {
    GridSize(UVec2 { x, y })
}

#[test]
fn the_cells_of_a_block_lie_around_its_middle() {
    assert_eq!(block_cells(&size(1, 1)), vec![Vec2 { x: 0, y: 0 }]);
    assert_eq!(
        block_cells(&size(2, 1)),
        vec![Vec2 { x: -500_000, y: 0 }, Vec2 { x: 500_000, y: 0 }]
    );
    assert_eq!(
        block_cells(&size(2, 3)),
        vec![
            Vec2 { x: -500_000, y: -UNIT },
            Vec2 { x: 500_000, y: -UNIT },
            Vec2 { x: -500_000, y: 0 },
            Vec2 { x: 500_000, y: 0 },
            Vec2 { x: -500_000, y: UNIT },
            Vec2 { x: 500_000, y: UNIT },
        ]
    );
    assert!(block_cells(&size(0, 5)).is_empty());
    assert!(block_cells(&size(5, 0)).is_empty());
}

#[test]
fn a_block_is_laid_out_again_when_its_size_changes() {
    assert_eq!(GridSize::default(), size(1, 1));
    let mut in_game: Option<PreviousSize> = None;
    assert!(should_populate(&size(2, 2), &mut in_game));
    assert!(should_populate(&size(2, 2), &mut in_game));
    assert_eq!(in_game, None);
    let mut in_editor = Some(PreviousSize::default());
    assert!(should_populate(&size(2, 2), &mut in_editor));
    assert_eq!(in_editor, Some(PreviousSize(UVec2 { x: 2, y: 2 })));
    assert!(!should_populate(&size(2, 2), &mut in_editor));
    assert!(should_populate(&size(2, 3), &mut in_editor));
    assert_eq!(in_editor, Some(PreviousSize(UVec2 { x: 2, y: 3 })));
}

#[test]
fn a_block_is_ground_to_plant_on_and_to_fall_from() {
    let mut world = World::new();
    let block = populate_block(&mut world, Vec3::new(UNIT, 2 * UNIT, 0), size(4, 2));
    world.apply_commands();
    let block = world.get(block).unwrap();
    assert_eq!(block.grid_size, Some(size(4, 2)));
    assert!(block.fertile_ground.is_some());
    assert!(block.kill_player_when_below.is_some());
    assert!(block.belongs_to_level.is_some());
}

#[test]
fn halves_are_rounded_away_from_zero() {
    assert_eq!(rounded_cells(0), 0);
    assert_eq!(rounded_cells(499_999), 0);
    assert_eq!(rounded_cells(500_000), 1);
    assert_eq!(rounded_cells(1_499_999), 1);
    assert_eq!(rounded_cells(-499_999), 0);
    assert_eq!(rounded_cells(-500_000), -1);
    assert_eq!(rounded_cells(-1_500_000), -2);
}

#[test]
fn the_edges_of_a_snapped_entity_fall_on_whole_units() {
    let odd = apply_snap_to_grid(Vec3::new(1_400_000, -1_400_000, 123), None);
    assert_eq!(odd, Vec3::new(1_500_000, -1_500_000, 123));
    let even = apply_snap_to_grid(Vec3::new(1_400_000, 1_600_000, -7), Some(size(2, 4)));
    assert_eq!(even, Vec3::new(UNIT, 2 * UNIT, -7));
    let wide = apply_snap_to_grid(Vec3::new(0, 0, 0), Some(size(3, 1)));
    // Minus one and a half and minus a half are rounded away from zero.
    assert_eq!(wide, Vec3::new(-500_000, -500_000, 0));
}

#[test]
fn the_knobs_sit_on_the_corners() {
    let middle = Vec3::new(10 * UNIT, 20 * UNIT, 3);
    let block = size(4, 2);
    assert_eq!(resize_knob(middle, block, 0), Vec3::new(12 * UNIT, 21 * UNIT, 3));
    assert_eq!(resize_knob(middle, block, 1), Vec3::new(8 * UNIT, 21 * UNIT, 3));
    assert_eq!(resize_knob(middle, block, 2), Vec3::new(8 * UNIT, 19 * UNIT, 3));
    assert_eq!(resize_knob(middle, block, 3), Vec3::new(12 * UNIT, 19 * UNIT, 3));
}

#[test]
fn dragging_a_knob_keeps_the_opposite_corner() {
    let origin = Vec3::new(0, 0, 9);
    let (position, resized) =
        grid_resize(origin, size(1, 1), 0, Vec3::new(2_400_000, 1_600_000, 0));
    assert_eq!(resized, size(3, 2));
    assert_eq!(position, Vec3::new(UNIT, 500_000, 9));

    let (position, resized) = grid_resize(origin, size(1, 1), 2, Vec3::new(-1_400_000, 300_000, 0));
    assert_eq!(resized, size(2, 1));
    assert_eq!(position, Vec3::new(-500_000, 0, 9));

    // A knob dragged past the opposite corner leaves one cell.
    let (position, resized) = grid_resize(origin, size(3, 3), 0, Vec3::new(-9 * UNIT, -9 * UNIT, 0));
    assert_eq!(resized, size(1, 1));
    assert_eq!(position, Vec3::new(-UNIT, -UNIT, 9));

    let (position, resized) = grid_resize(origin, size(2, 2), 1, Vec3::new(-3 * UNIT, 2 * UNIT, 0));
    assert_eq!(resized, size(4, 3));
    assert_eq!(position, Vec3::new(-UNIT, 500_000, 9));
}
