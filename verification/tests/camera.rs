use gardening_gun::camera::{
    camera_track_player, clamp_length_max, setup_camera, sqrt, CameraPlacement, MovingPoint,
};
use gardening_gun::math::{Vec2, Vec3, COORD_MAX, UNIT};
use gardening_gun::player::populate_player;
use gardening_gun::world::World;

#[test]
fn the_whole_part_of_a_square_root() {
    assert_eq!(sqrt(0), 0);
    assert_eq!(sqrt(1), 1);
    assert_eq!(sqrt(2), 1);
    assert_eq!(sqrt(3), 1);
    assert_eq!(sqrt(4), 2);
    assert_eq!(sqrt(99), 9);
    assert_eq!(sqrt(100), 10);
    assert_eq!(sqrt(2_000_000_000_000), 1_414_213);
    assert_eq!(sqrt(1_000_000_000_000_000_000_000_000_000_000_000_000), 1_000_000_000_000_000_000);
    assert_eq!(sqrt(999_999_999_999_999_999_999_999_999_999_999_999), 999_999_999_999_999_999);
}

#[test]
fn a_vector_is_shortened_to_the_length_asked_for() {
    let long = Vec2 { x: 30 * UNIT, y: -40 * UNIT };
    assert_eq!(clamp_length_max(long, 20 * UNIT), Vec2 { x: 12 * UNIT, y: -16 * UNIT });
    assert_eq!(clamp_length_max(long, 50 * UNIT), long);
    assert_eq!(clamp_length_max(long, 60 * UNIT), long);
    assert_eq!(clamp_length_max(long, 0), Vec2 { x: 0, y: 0 });
    assert_eq!(clamp_length_max(Vec2 { x: 0, y: 0 }, 0), Vec2 { x: 0, y: 0 });
    // Rounded toward zero: (7, -7) has the whole length 9.
    assert_eq!(clamp_length_max(Vec2 { x: 7, y: -7 }, 5), Vec2 { x: 3, y: -3 });
}

#[test]
fn a_point_far_from_its_target_speeds_up_toward_it() {
    let mut point = MovingPoint::new(20 * UNIT, 20 * UNIT, 3 * UNIT, 5 * UNIT);
    point.update(100_000, Vec2 { x: 30 * UNIT, y: 40 * UNIT });
    assert_eq!(point.velocity, Vec2 { x: 1_200_000, y: 1_600_000 });
    assert_eq!(point.position, Vec2 { x: 120_000, y: 160_000 });
    point.update(100_000, Vec2 { x: 30 * UNIT, y: 40 * UNIT });
    // The wish is twenty units a second toward the target, the change two units a second.
    assert_eq!(point.velocity, Vec2 { x: 2_400_000, y: 3_200_000 });
    assert_eq!(point.position, Vec2 { x: 360_000, y: 480_000 });
}

#[test]
fn a_point_within_its_range_slows_down() {
    let mut point = MovingPoint::new(10 * UNIT, 10 * UNIT, 5 * UNIT, 5 * UNIT);
    point.velocity = Vec2 { x: -3 * UNIT, y: 4 * UNIT };
    // The target is exactly at the range: the point counts as arrived.
    point.update(200_000, Vec2 { x: 3 * UNIT, y: 4 * UNIT });
    assert_eq!(point.velocity, Vec2 { x: -2_400_000, y: 3_200_000 });
    assert_eq!(point.position, Vec2 { x: -480_000, y: 640_000 });
    // At rest it stays at rest.
    let mut still = MovingPoint::new(10 * UNIT, 10 * UNIT, 5 * UNIT, 5 * UNIT);
    still.update(1_000_000, Vec2 { x: UNIT, y: UNIT });
    assert_eq!(still, MovingPoint::new(10 * UNIT, 10 * UNIT, 5 * UNIT, 5 * UNIT));
}

#[test]
fn a_point_stays_within_the_range_of_coordinates() {
    let mut point = MovingPoint::new(COORD_MAX, COORD_MAX, 0, 0);
    point.position = Vec2 { x: COORD_MAX - 10, y: 0 };
    point.velocity = Vec2 { x: 1_000 * UNIT, y: 0 };
    point.update(1_000_000, Vec2 { x: COORD_MAX, y: 0 });
    assert_eq!(point.position, Vec2 { x: COORD_MAX, y: 0 });
}

#[test]
fn the_camera_stands_in_front_of_the_point_it_looks_at() {
    let mut world = World::new();
    let mut camera = setup_camera();
    assert_eq!(camera_track_player(&world, &mut camera, 100_000), None);
    assert_eq!(camera, setup_camera());
    let player = populate_player(&mut world, Vec3::new(10 * UNIT, 0, 7 * UNIT));
    world.apply_commands();
    let placed = camera_track_player(&world, &mut camera, 100_000);
    assert_eq!(camera.looking_at.velocity, Vec2 { x: 2 * UNIT, y: 0 });
    assert_eq!(camera.looking_at.position, Vec2 { x: 200_000, y: 0 });
    assert_eq!(camera.camera_at.velocity, Vec2 { x: UNIT, y: 0 });
    assert_eq!(camera.camera_at.position, Vec2 { x: 100_000, y: 0 });
    assert_eq!(
        placed,
        Some(CameraPlacement {
            translation: Vec3::new(200_000, 3 * UNIT, 30 * UNIT),
            looking_at: Vec3::new(200_000, 0, 0),
        })
    );
    // With two players there is nobody to follow.
    populate_player(&mut world, Vec3::new(0, 0, 0));
    world.apply_commands();
    let before = camera;
    assert_eq!(camera_track_player(&world, &mut camera, 100_000), None);
    assert_eq!(camera, before);
    assert!(world.contains(player));
}
