//! The camera, which follows the player with a lag: two points that chase
//! the player, one for where the camera looks and one for where it would
//! stand.
use vstd::prelude::*;
use crate::math::{clamp_coord, clamp_to_bounds, Vec2, Vec3, COORD_MAX, DELTA_MAX, UNIT};
use crate::player::{single_player, the_player};
use crate::world::World;

verus! {

/// The largest magnitude of a coordinate of a velocity of a moving point.
pub const SPEED_MAX: i64 = 2_000_000_000_000_000;

/// How far in front of the plane of play the camera stands.
pub const CAMERA_DISTANCE: i64 = 30_000_000;

/// How far above the point it looks at the camera stands.
pub const CAMERA_HEIGHT: i64 = 3_000_000;

/// Whether `root` is the whole part of the square root of `n`.
pub open spec fn is_sqrt(n: int, root: int) -> bool {
    0 <= root && root * root <= n < (root + 1) * (root + 1)
}

/// The whole part of the square root of `n`.
pub open spec fn floor_sqrt(n: int) -> int {
    choose|root: int| is_sqrt(n, root)
}

/// A number has one whole square root.
pub proof fn lemma_sqrt_unique(n: int, root: int)
    requires
        is_sqrt(n, root),
    ensures
        floor_sqrt(n) == root,
{
    let other = floor_sqrt(n);
    assert(is_sqrt(n, other));
    if other < root {
        assert((other + 1) * (other + 1) <= root * root) by (nonlinear_arith)
            requires
                0 <= other,
                other + 1 <= root,
        ;
    } else if root < other {
        assert((root + 1) * (root + 1) <= other * other) by (nonlinear_arith)
            requires
                0 <= root,
                root + 1 <= other,
        ;
    }
}

/// Computes the whole part of a square root.
pub fn sqrt(n: u128) -> (root: u128)
    requires
        n <= 1_000_000_000_000_000_000_000_000_000_000_000_000,
    ensures
        root == floor_sqrt(n as int),
        is_sqrt(n as int, root as int),
        root <= 1_000_000_000_000_000_000,
{
    let mut low: u128 = 0;
    let mut high: u128 = 1_000_000_000_000_000_001;
    assert(n < high * high) by (nonlinear_arith)
        requires
            n <= 1_000_000_000_000_000_000_000_000_000_000_000_000,
            high == 1_000_000_000_000_000_001,
    ;
    while high - low > 1
        invariant
            low < high <= 1_000_000_000_000_000_001,
            low * low <= n < high * high,
        decreases high - low,
    {
        let middle = low + (high - low) / 2;
        assert(middle * middle <= 1_000_000_000_000_000_001 * 1_000_000_000_000_000_001)
            by (nonlinear_arith)
            requires
                middle <= 1_000_000_000_000_000_001,
        ;
        if middle * middle <= n {
            low = middle;
        } else {
            high = middle;
        }
    }
    proof {
        assert(high == low + 1);
        lemma_sqrt_unique(n as int, low as int);
    }
    low
}

/// The square of the length of a vector.
pub open spec fn length_squared(v: Vec2) -> int {
    v.x * v.x + v.y * v.y
}

/// `part` times `numerator` over `denominator`, rounded toward zero.
pub open spec fn ratio_of(part: int, numerator: int, denominator: int) -> int {
    if part >= 0 {
        (part * numerator) / denominator
    } else {
        -((-part * numerator) / denominator)
    }
}

/// The vector `v` shortened to the length `max` where it is longer: each
/// coordinate times `max` over the whole part of the length, rounded toward
/// zero.
pub open spec fn clamped_length(v: Vec2, max: i64) -> Vec2 {
    if length_squared(v) > max * max {
        let length = floor_sqrt(length_squared(v));
        Vec2 { x: ratio_of(v.x as int, max as int, length) as i64, y: ratio_of(
            v.y as int,
            max as int,
            length,
        ) as i64 }
    } else {
        v
    }
}

/// Whether `c` lies between zero and `bound`, on the side of `bound`.
pub open spec fn within(c: int, bound: int) -> bool {
    (bound >= 0 ==> 0 <= c <= bound) && (bound <= 0 ==> bound <= c <= 0)
}

/// The magnitude of a coordinate.
fn magnitude(c: i64) -> (m: u128)
    requires
        -4 * COORD_MAX <= c <= 4 * COORD_MAX,
    ensures
        m == if c >= 0 {
            c as int
        } else {
            -c
        },
        m <= 4 * COORD_MAX,
{
    if c >= 0 {
        c as u128
    } else {
        (-c) as u128
    }
}

/// One coordinate of a vector that is shortened.
fn shorten(c: i64, max: u128, length: u128) -> (shortened: i64)
    requires
        -4 * COORD_MAX <= c <= 4 * COORD_MAX,
        max <= length,
        0 < length,
        max <= 1_000_000_000_000_000_000,
    ensures
        shortened == ratio_of(c as int, max as int, length as int),
        within(shortened as int, c as int),
{
    let m = magnitude(c);
    assert(m * max <= 4_000_000_000_000_000 * 1_000_000_000_000_000_000) by (nonlinear_arith)
        requires
            m <= 4_000_000_000_000_000,
            max <= 1_000_000_000_000_000_000,
    ;
    let part = (m * max) / length;
    assert(part <= m) by (nonlinear_arith)
        requires
            part == (m * max) / (length as int),
            max <= length,
            0 < length,
            0 <= m,
            0 <= max,
    ;
    if c >= 0 {
        part as i64
    } else {
        assert(-c * max == m * max) by (nonlinear_arith)
            requires
                m == -c,
        ;
        -(part as i64)
    }
}

/// Shortens a vector to the length `max` where it is longer.
pub fn clamp_length_max(v: Vec2, max: i64) -> (clamped: Vec2)
    requires
        -4 * COORD_MAX <= v.x <= 4 * COORD_MAX,
        -4 * COORD_MAX <= v.y <= 4 * COORD_MAX,
        0 <= max <= 1_000_000_000_000_000_000,
    ensures
        clamped == clamped_length(v, max),
        within(clamped.x as int, v.x as int),
        within(clamped.y as int, v.y as int),
{
    let x = magnitude(v.x);
    let y = magnitude(v.y);
    assert(x * x <= 16_000_000_000_000_000_000_000_000_000_000 && x * x == v.x * v.x)
        by (nonlinear_arith)
        requires
            x <= 4_000_000_000_000_000,
            x == v.x || x == -v.x,
    ;
    assert(y * y <= 16_000_000_000_000_000_000_000_000_000_000 && y * y == v.y * v.y)
        by (nonlinear_arith)
        requires
            y <= 4_000_000_000_000_000,
            y == v.y || y == -v.y,
    ;
    let length_sq = x * x + y * y;
    let limit = max as u128;
    assert(limit * limit <= 1_000_000_000_000_000_000 * 1_000_000_000_000_000_000) by (nonlinear_arith)
        requires
            limit <= 1_000_000_000_000_000_000,
    ;
    if length_sq > limit * limit {
        let length = sqrt(length_sq);
        proof {
            if length < limit {
                assert((length + 1) * (length + 1) <= limit * limit) by (nonlinear_arith)
                    requires
                        0 <= length,
                        length + 1 <= limit,
                ;
            }
            if length == 0 {
                assert((length + 1) * (length + 1) == 1) by (nonlinear_arith)
                    requires
                        length == 0,
                ;
            }
        }
        Vec2 { x: shorten(v.x, limit, length), y: shorten(v.y, limit, length) }
    } else {
        v
    }
}

/// A point that chases a target: it speeds up toward the target while it is
/// far from it, and slows down once it is near.
#[derive(Clone, Copy, Debug, PartialEq, Eq, Structural)]
pub struct MovingPoint {
    pub position: Vec2,
    /// The velocity, in millionths of a unit a second.
    pub velocity: Vec2,
    /// The speed that the point aims at while it chases.
    pub max_velocity: i64,
    /// How fast the velocity changes while the point chases, in millionths of
    /// a unit a second each second.
    pub acceleration: i64,
    /// The distance from the target within which the point counts as
    /// arrived.
    pub stop_at_range: i64,
    /// How fast the velocity falls once the point has arrived.
    pub stop_acceleration: i64,
}

/// Whether a tuning value of a moving point is within range.
pub open spec fn tuning_in_bounds(value: i64) -> bool {
    0 <= value <= COORD_MAX
}

/// The difference of two vectors.
pub open spec fn minus(a: Vec2, b: Vec2) -> Vec2 {
    Vec2 { x: (a.x - b.x) as i64, y: (a.y - b.y) as i64 }
}

/// The sum of two vectors.
pub open spec fn sum(a: Vec2, b: Vec2) -> Vec2 {
    Vec2 { x: (a.x + b.x) as i64, y: (a.y + b.y) as i64 }
}

/// How much a rate that is given by the second makes in `duration`
/// microseconds, rounded toward zero.
pub open spec fn over_time(rate: int, duration: int) -> int {
    if rate >= 0 {
        (rate * duration) / (UNIT as int)
    } else {
        -((-rate * duration) / (UNIT as int))
    }
}

/// The velocity after it was changed toward `desired` by no more than
/// `max_impulse`.
pub open spec fn pushed(velocity: Vec2, desired: Vec2, max_impulse: i64) -> Vec2 {
    sum(velocity, clamped_length(minus(desired, velocity), max_impulse))
}

/// Computes how much a rate makes in a duration.
fn during(rate: i64, duration: u64) -> (change: i64)
    requires
        -SPEED_MAX <= rate <= SPEED_MAX,
        duration <= DELTA_MAX,
    ensures
        change == over_time(rate as int, duration as int),
        -2_000_000_000_000_000_000 <= change <= 2_000_000_000_000_000_000,
{
    let m: u128 = if rate >= 0 {
        rate as u128
    } else {
        (-rate) as u128
    };
    let d = duration as u128;
    assert(m * d <= 2_000_000_000_000_000_000_000_000) by (nonlinear_arith)
        requires
            m <= 2_000_000_000_000_000,
            d <= 1_000_000_000,
    ;
    let change = (m * d) / (UNIT as u128);
    assert(change <= 2_000_000_000_000_000_000) by {
        assert(UNIT as u128 == 1_000_000);
        let product = m * d;
        assert(product / 1_000_000 <= 2_000_000_000_000_000_000) by (nonlinear_arith)
            requires
                0 <= product <= 2_000_000_000_000_000_000_000_000,
        ;
    }
    if rate >= 0 {
        change as i64
    } else {
        assert(-rate * duration == m * d) by (nonlinear_arith)
            requires
                m == -rate,
                d == duration,
        ;
        -(change as i64)
    }
}

impl MovingPoint {
    /// The point stands within the range of coordinates, its velocity within
    /// twice that range, and its tuning is within range.
    pub open spec fn wf(&self) -> bool {
        &&& self.position.in_bounds()
        &&& -SPEED_MAX <= self.velocity.x <= SPEED_MAX
        &&& -SPEED_MAX <= self.velocity.y <= SPEED_MAX
        &&& tuning_in_bounds(self.max_velocity)
        &&& tuning_in_bounds(self.acceleration)
        &&& tuning_in_bounds(self.stop_at_range)
        &&& tuning_in_bounds(self.stop_acceleration)
    }

    /// A point at rest at the origin.
    pub fn new(max_velocity: i64, acceleration: i64, stop_at_range: i64, stop_acceleration: i64) -> (point:
        Self)
        requires
            tuning_in_bounds(max_velocity),
            tuning_in_bounds(acceleration),
            tuning_in_bounds(stop_at_range),
            tuning_in_bounds(stop_acceleration),
        ensures
            point.wf(),
            point == (MovingPoint {
                position: Vec2 { x: 0, y: 0 },
                velocity: Vec2 { x: 0, y: 0 },
                max_velocity,
                acceleration,
                stop_at_range,
                stop_acceleration,
            }),
    {
        Self {
            position: Vec2 { x: 0, y: 0 },
            velocity: Vec2 { x: 0, y: 0 },
            max_velocity,
            acceleration,
            stop_at_range,
            stop_acceleration,
        }
    }

    /// Changes the velocity toward `desired_velocity`, by no more than
    /// `max_impulse`.
    pub fn update_velocity(&mut self, desired_velocity: Vec2, max_impulse: i64)
        requires
            old(self).wf(),
            -SPEED_MAX <= desired_velocity.x <= SPEED_MAX,
            -SPEED_MAX <= desired_velocity.y <= SPEED_MAX,
            0 <= max_impulse <= 1_000_000_000_000_000_000,
        ensures
            final(self).wf(),
            *final(self) == (MovingPoint {
                velocity: pushed(old(self).velocity, desired_velocity, max_impulse),
                ..*old(self)
            }),
    {
        let single_frame_impulse = Vec2 {
            x: desired_velocity.x - self.velocity.x,
            y: desired_velocity.y - self.velocity.y,
        };
        let actual_impulse = clamp_length_max(single_frame_impulse, max_impulse);
        self.velocity = Vec2 {
            x: self.velocity.x + actual_impulse.x,
            y: self.velocity.y + actual_impulse.y,
        };
    }

    /// The point after `duration` microseconds of chasing `target`: while it
    /// is farther from the target than its range it changes its velocity toward
    /// the target, at no more than its top speed, and within its range toward
    /// rest; then it moves with its velocity, as far as the range of
    /// coordinates goes.
    pub open spec fn moved(self, duration: u64, target: Vec2) -> MovingPoint {
        let vector_to_target = minus(target, self.position);
        let velocity = if self.stop_at_range * self.stop_at_range < length_squared(
            vector_to_target,
        ) {
            pushed(
                self.velocity,
                clamped_length(vector_to_target, self.max_velocity),
                (self.acceleration * duration / (UNIT as int)) as i64,
            )
        } else {
            pushed(
                self.velocity,
                Vec2 { x: 0, y: 0 },
                (self.stop_acceleration * duration / (UNIT as int)) as i64,
            )
        };
        MovingPoint {
            position: Vec2 {
                x: clamp_coord(self.position.x + over_time(velocity.x as int, duration as int)),
                y: clamp_coord(self.position.y + over_time(velocity.y as int, duration as int)),
            },
            velocity,
            ..self
        }
    }

    /// Lets the point chase `target` for `duration` microseconds.
    pub fn update(&mut self, duration: u64, target: Vec2)
        requires
            old(self).wf(),
            duration <= DELTA_MAX,
            target.in_bounds(),
        ensures
            final(self).wf(),
            *final(self) == old(self).moved(duration, target),
    {
        let vector_to_target = Vec2 {
            x: target.x - self.position.x,
            y: target.y - self.position.y,
        };
        let x = magnitude(vector_to_target.x);
        let y = magnitude(vector_to_target.y);
        assert(x * x <= 16_000_000_000_000_000_000_000_000_000_000 && x * x == vector_to_target.x
            * vector_to_target.x) by (nonlinear_arith)
            requires
                x <= 4_000_000_000_000_000,
                x == vector_to_target.x || x == -vector_to_target.x,
        ;
        assert(y * y <= 16_000_000_000_000_000_000_000_000_000_000 && y * y == vector_to_target.y
            * vector_to_target.y) by (nonlinear_arith)
            requires
                y <= 4_000_000_000_000_000,
                y == vector_to_target.y || y == -vector_to_target.y,
        ;
        let range = self.stop_at_range as u128;
        assert(range * range <= 1_000_000_000_000_000 * 1_000_000_000_000_000) by (nonlinear_arith)
            requires
                range <= 1_000_000_000_000_000,
        ;
        let d = duration as u128;
        if range * range < x * x + y * y {
            let rate = self.acceleration as u128;
            assert(rate * d <= 1_000_000_000_000_000_000_000_000) by (nonlinear_arith)
                requires
                    rate <= 1_000_000_000_000_000,
                    d <= 1_000_000_000,
            ;
            let max_impulse = ((rate * d) / (UNIT as u128)) as i64;
            let desired = clamp_length_max(vector_to_target, self.max_velocity);
            self.update_velocity(desired, max_impulse);
        } else {
            let rate = self.stop_acceleration as u128;
            assert(rate * d <= 1_000_000_000_000_000_000_000_000) by (nonlinear_arith)
                requires
                    rate <= 1_000_000_000_000_000,
                    d <= 1_000_000_000,
            ;
            let max_impulse = ((rate * d) / (UNIT as u128)) as i64;
            self.update_velocity(Vec2 { x: 0, y: 0 }, max_impulse);
        }
        self.position = Vec2 {
            x: clamp_to_bounds(self.position.x + during(self.velocity.x, duration)),
            y: clamp_to_bounds(self.position.y + during(self.velocity.y, duration)),
        };
    }
}

/// The two points with which a camera follows the player.
#[derive(Clone, Copy, Debug, PartialEq, Eq, Structural)]
pub struct PlayerTrackingCamera {
    pub camera_at: MovingPoint,
    pub looking_at: MovingPoint,
}

/// Where the camera stands and what it looks at.
#[derive(Clone, Copy, Debug, PartialEq, Eq, Structural)]
pub struct CameraPlacement {
    pub translation: Vec3,
    pub looking_at: Vec3,
}

impl PlayerTrackingCamera {
    /// Both points are sound.
    pub open spec fn wf(&self) -> bool {
        self.camera_at.wf() && self.looking_at.wf()
    }

    /// The camera after `duration` microseconds of following `target`.
    pub open spec fn following(self, duration: u64, target: Vec2) -> PlayerTrackingCamera {
        PlayerTrackingCamera {
            camera_at: self.camera_at.moved(duration, target),
            looking_at: self.looking_at.moved(duration, target),
        }
    }

    /// Where the camera stands: thirty units in front of the point it looks
    /// at, and three above it.
    pub open spec fn placement(self) -> CameraPlacement {
        CameraPlacement {
            translation: Vec3 {
                x: self.looking_at.position.x,
                y: (self.looking_at.position.y + CAMERA_HEIGHT) as i64,
                z: CAMERA_DISTANCE,
            },
            looking_at: Vec3 {
                x: self.looking_at.position.x,
                y: self.looking_at.position.y,
                z: 0,
            },
        }
    }
}

/// The camera as it is set up: the point it would stand at chases at ten
/// units a second, the point it looks at at twenty.
pub fn setup_camera() -> (camera: PlayerTrackingCamera)
    ensures
        camera.wf(),
        camera.camera_at == (MovingPoint {
            position: Vec2 { x: 0, y: 0 },
            velocity: Vec2 { x: 0, y: 0 },
            max_velocity: 10_000_000,
            acceleration: 10_000_000,
            stop_at_range: 5_000_000,
            stop_acceleration: 5_000_000,
        }),
        camera.looking_at == (MovingPoint {
            position: Vec2 { x: 0, y: 0 },
            velocity: Vec2 { x: 0, y: 0 },
            max_velocity: 20_000_000,
            acceleration: 20_000_000,
            stop_at_range: 3_000_000,
            stop_acceleration: 5_000_000,
        }),
{
    PlayerTrackingCamera {
        camera_at: MovingPoint::new(10_000_000, 10_000_000, 5_000_000, 5_000_000),
        looking_at: MovingPoint::new(20_000_000, 20_000_000, 3_000_000, 5_000_000),
    }
}

/// Lets the camera follow the player for `duration` microseconds and says
/// where it stands then. Where there is no player, or more than one, the
/// camera stays as it is and nothing is said.
pub fn camera_track_player(world: &World, camera: &mut PlayerTrackingCamera, duration: u64) -> (placed:
    Option<CameraPlacement>)
    requires
        world.wf(),
        old(camera).wf(),
        duration <= DELTA_MAX,
    ensures
        final(camera).wf(),
        match single_player(world@.actors) {
            Some(player) => *final(camera) == old(camera).following(
                duration,
                player.position.spec_truncate(),
            ) && placed == Some(final(camera).placement()),
            None => *final(camera) == *old(camera) && placed is None,
        },
{
    let player = match the_player(world) {
        Some(player) => player,
        None => {
            return None;
        },
    };
    let player_position_2d = player.position.truncate();
    camera.camera_at.update(duration, player_position_2d);
    camera.looking_at.update(duration, player_position_2d);
    Some(
        CameraPlacement {
            translation: Vec3 {
                x: camera.looking_at.position.x,
                y: camera.looking_at.position.y + CAMERA_HEIGHT,
                z: CAMERA_DISTANCE,
            },
            looking_at: Vec3 {
                x: camera.looking_at.position.x,
                y: camera.looking_at.position.y,
                z: 0,
            },
        },
    )
}

} // verus!
