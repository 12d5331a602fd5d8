//! The kinematics core: geometry types, the leg-vector resolver, the servo
//! angle solver, and the engine that turns a pose into six servo angles.
//!
//! Every length and coordinate is a `Q8` fixed-point decimal (the value
//! times `10^8`); every angle is radians at the same scale.

use crate::errors::{KinematicsError, LegFailure};
use crate::fixed::{
    lemma_mul_bound, lemma_rhe_exact, lemma_rhe_magnitude, rhe_i128, round_half_even, sqrt_floor,
    isqrt_u128, ONE_Q8,
};
use crate::rotation::{
    build_rotation, entries_bounded, identity_mat, rot_spec, Mat3, RotationMatrix,
};
use crate::trig::{acos_q8, acos_q8_spec, atan2_q8, atan2_q8_spec};
use vstd::prelude::*;

verus! {

broadcast use vstd::array::group_array_axioms;

/// The largest coordinate or leg length the engine accepts: `4 * 10^5`
/// length units at the working scale. The bound is what keeps every
/// intermediate product of the solver inside 128-bit arithmetic.
pub const COORD_LIMIT: i64 = 40_000_000_000_000;

/// The largest coordinate a resolved leg vector can reach, given
/// [`COORD_LIMIT`] inputs and a rounded rotation matrix.
pub const LEG_LIMIT: i64 = 400_000_000_000_000;

/// A world-frame position or displacement: `(x, y, z)` at the working scale.
#[derive(Clone, Copy, Debug, PartialEq, Eq, Structural)]
pub struct Point {
    pub x: i64,
    pub y: i64,
    pub z: i64,
}

impl Point {
    /// All coordinates within the engine's input bound.
    pub open spec fn in_range(self) -> bool {
        &&& -COORD_LIMIT <= self.x <= COORD_LIMIT
        &&& -COORD_LIMIT <= self.y <= COORD_LIMIT
        &&& -COORD_LIMIT <= self.z <= COORD_LIMIT
    }

    /// All coordinates within the bound of a resolved leg vector.
    pub open spec fn leg_in_range(self) -> bool {
        &&& -LEG_LIMIT <= self.x <= LEG_LIMIT
        &&& -LEG_LIMIT <= self.y <= LEG_LIMIT
        &&& -LEG_LIMIT <= self.z <= LEG_LIMIT
    }

    /// A point from its three coordinates.
    pub fn new(x: i64, y: i64, z: i64) -> (p: Point)
        ensures
            p == (Point { x, y, z }),
    {
        Point { x, y, z }
    }
}

/// A platform orientation: roll, pitch and yaw in radians at the working
/// scale. No bound on magnitude is enforced; reachability is checked when a
/// pose is solved.
#[derive(Clone, Copy, Debug, PartialEq, Eq, Structural)]
pub struct Orientation {
    pub roll: i64,
    pub pitch: i64,
    pub yaw: i64,
}

impl Orientation {
    /// An orientation from its three angles.
    pub fn new(roll: i64, pitch: i64, yaw: i64) -> (o: Orientation)
        ensures
            o == (Orientation { roll, pitch, yaw }),
    {
        Orientation { roll, pitch, yaw }
    }
}

/// Which of the two angular solution branches a leg's servo uses: the servo
/// horns are mounted mirrored on opposite sides of the platform.
#[derive(Clone, Copy, Debug, PartialEq, Eq, Structural)]
pub enum Direction {
    Left,
    Right,
}

/// Identity label of a motor, one per leg.
#[derive(Clone, Copy, Debug, PartialEq, Eq, Structural)]
pub enum MotorId {
    Zero,
    One,
    Two,
    Three,
    Four,
    Five,
}

/// A fixed motor: its world-frame base position, its identity label and the
/// solution branch of its servo horn.
#[derive(Clone, Copy, Debug, PartialEq, Eq, Structural)]
pub struct Motor {
    pub position: Point,
    pub motor_id: MotorId,
    pub direction: Direction,
}

impl Motor {
    /// A motor from its base position, direction and label.
    pub fn new(position: Point, direction: Direction, motor_id: MotorId) -> (m: Motor)
        ensures
            m == (Motor { position, motor_id, direction }),
    {
        Motor { position, motor_id, direction }
    }

    /// The world-frame base position.
    pub fn get_position(&self) -> (p: &Point)
        ensures
            *p == self.position,
    {
        &self.position
    }

    /// The solution branch of the servo horn.
    pub fn get_direction(&self) -> (d: &Direction)
        ensures
            *d == self.direction,
    {
        &self.direction
    }
}

/// The rigid top plate: a center reference point and six platform-local
/// attachment offsets, index-aligned with the six motors.
#[derive(Clone, Copy, Debug)]
pub struct Platform {
    pub center: Point,
    pub arm_positions: [Point; 6],
}

impl Platform {
    /// Every attachment offset within the engine's input bound.
    pub open spec fn in_range(self) -> bool {
        forall|i: int| 0 <= i < 6 ==> (#[trigger] self.arm_positions[i]).in_range()
    }

    /// A platform from its center and its six attachment offsets.
    pub fn new(center: Point, arm_positions: [Point; 6]) -> (p: Platform)
        ensures
            p == (Platform { center, arm_positions }),
    {
        Platform { center, arm_positions }
    }
}

// ---------------------------------------------------------------------------
// Leg vector resolution.
// ---------------------------------------------------------------------------

/// The `x` coordinate of a rotated point: the matrix row times the point,
/// scaled back to `Q8` by the library's rounding rule.
pub open spec fn rot_apply_x(m: Mat3, p: Point) -> int {
    round_half_even(m.m00 * p.x + m.m01 * p.y + m.m02 * p.z, ONE_Q8 as int)
}

/// The `y` coordinate of a rotated point.
pub open spec fn rot_apply_y(m: Mat3, p: Point) -> int {
    round_half_even(m.m10 * p.x + m.m11 * p.y + m.m12 * p.z, ONE_Q8 as int)
}

/// The `z` coordinate of a rotated point.
pub open spec fn rot_apply_z(m: Mat3, p: Point) -> int {
    round_half_even(m.m20 * p.x + m.m21 * p.y + m.m22 * p.z, ONE_Q8 as int)
}

/// The `x` coordinate of the world-frame vector spanning a leg: target
/// position plus rotated attachment offset, minus the motor base.
pub open spec fn leg_spec_x(target: Point, m: Mat3, arm: Point, motor_pos: Point) -> int {
    target.x + rot_apply_x(m, arm) - motor_pos.x
}

/// The `y` coordinate of the leg vector.
pub open spec fn leg_spec_y(target: Point, m: Mat3, arm: Point, motor_pos: Point) -> int {
    target.y + rot_apply_y(m, arm) - motor_pos.y
}

/// The `z` coordinate of the leg vector.
pub open spec fn leg_spec_z(target: Point, m: Mat3, arm: Point, motor_pos: Point) -> int {
    target.z + rot_apply_z(m, arm) - motor_pos.z
}

/// Applies a rounded rotation matrix to a point. The identity matrix moves
/// nothing: rounding is exact on whole `Q8` values.
fn rotate_point(rot: &RotationMatrix, p: &Point) -> (q: Point)
    requires
        entries_bounded(rot@),
        p.in_range(),
    ensures
        q.x == rot_apply_x(rot@, *p),
        q.y == rot_apply_y(rot@, *p),
        q.z == rot_apply_z(rot@, *p),
        -250_000_000_000_000 <= q.x <= 250_000_000_000_000,
        -250_000_000_000_000 <= q.y <= 250_000_000_000_000,
        -250_000_000_000_000 <= q.z <= 250_000_000_000_000,
        rot@ == identity_mat() ==> q == *p,
{
    proof {
        lemma_mul_bound(rot@.m00, p.x as int, 200_010_000, COORD_LIMIT as int);
        lemma_mul_bound(rot@.m01, p.y as int, 200_010_000, COORD_LIMIT as int);
        lemma_mul_bound(rot@.m02, p.z as int, 200_010_000, COORD_LIMIT as int);
        lemma_mul_bound(rot@.m10, p.x as int, 200_010_000, COORD_LIMIT as int);
        lemma_mul_bound(rot@.m11, p.y as int, 200_010_000, COORD_LIMIT as int);
        lemma_mul_bound(rot@.m12, p.z as int, 200_010_000, COORD_LIMIT as int);
        lemma_mul_bound(rot@.m20, p.x as int, 200_010_000, COORD_LIMIT as int);
        lemma_mul_bound(rot@.m21, p.y as int, 200_010_000, COORD_LIMIT as int);
        lemma_mul_bound(rot@.m22, p.z as int, 200_010_000, COORD_LIMIT as int);
    }
    let sx: i128 = (rot.m00 as i128) * (p.x as i128) + (rot.m01 as i128) * (p.y as i128)
        + (rot.m02 as i128) * (p.z as i128);
    let sy: i128 = (rot.m10 as i128) * (p.x as i128) + (rot.m11 as i128) * (p.y as i128)
        + (rot.m12 as i128) * (p.z as i128);
    let sz: i128 = (rot.m20 as i128) * (p.x as i128) + (rot.m21 as i128) * (p.y as i128)
        + (rot.m22 as i128) * (p.z as i128);
    proof {
        lemma_rhe_magnitude(sx as int, ONE_Q8 as int, 24_001_200_000_000_000_000_000);
        lemma_rhe_magnitude(sy as int, ONE_Q8 as int, 24_001_200_000_000_000_000_000);
        lemma_rhe_magnitude(sz as int, ONE_Q8 as int, 24_001_200_000_000_000_000_000);
    }
    let qx = rhe_i128(sx, 100_000_000);
    let qy = rhe_i128(sy, 100_000_000);
    let qz = rhe_i128(sz, 100_000_000);
    let q = Point { x: qx as i64, y: qy as i64, z: qz as i64 };
    proof {
        if rot@ == identity_mat() {
            assert(rot@.m01 * p.y == 0 && rot@.m02 * p.z == 0 && rot@.m10 * p.x == 0
                && rot@.m12 * p.z == 0 && rot@.m20 * p.x == 0 && rot@.m21 * p.y == 0
                && rot@.m00 * p.x == (p.x as int) * 100_000_000
                && rot@.m11 * p.y == (p.y as int) * 100_000_000
                && rot@.m22 * p.z == (p.z as int) * 100_000_000) by (nonlinear_arith)
                requires
                    rot@.m00 == 100_000_000int,
                    rot@.m11 == 100_000_000int,
                    rot@.m22 == 100_000_000int,
                    rot@.m01 == 0int,
                    rot@.m02 == 0int,
                    rot@.m10 == 0int,
                    rot@.m12 == 0int,
                    rot@.m20 == 0int,
                    rot@.m21 == 0int,
            ;
            lemma_rhe_exact(p.x as int, ONE_Q8 as int);
            lemma_rhe_exact(p.y as int, ONE_Q8 as int);
            lemma_rhe_exact(p.z as int, ONE_Q8 as int);
        }
    }
    q
}

/// Computes the world-frame vector spanning one leg, from the motor base to
/// the repositioned attachment point. With the identity rotation and a zero
/// target, the leg vector is exactly the attachment offset minus the motor
/// base.
pub fn leg_vector(target: &Point, rot: &RotationMatrix, arm: &Point, motor_pos: &Point) -> (v:
    Point)
    requires
        entries_bounded(rot@),
        target.in_range(),
        arm.in_range(),
        motor_pos.in_range(),
    ensures
        v.x == leg_spec_x(*target, rot@, *arm, *motor_pos),
        v.y == leg_spec_y(*target, rot@, *arm, *motor_pos),
        v.z == leg_spec_z(*target, rot@, *arm, *motor_pos),
        v.leg_in_range(),
        (rot@ == identity_mat() && *target == (Point { x: 0, y: 0, z: 0 })) ==> (v.x == arm.x
            - motor_pos.x && v.y == arm.y - motor_pos.y && v.z == arm.z - motor_pos.z),
{
    let rp = rotate_point(rot, arm);
    Point { x: target.x + rp.x - motor_pos.x, y: target.y + rp.y - motor_pos.y, z: target.z + rp.z
        - motor_pos.z }
}

// ---------------------------------------------------------------------------
// The servo angle solver.
// ---------------------------------------------------------------------------

/// The squared horizontal projection of a leg vector.
pub open spec fn hor2_spec(x: int, y: int) -> int {
    x * x + y * y
}

/// The squared full length of a leg vector.
pub open spec fn d2_spec(x: int, y: int, z: int) -> int {
    x * x + y * y + z * z
}

/// The cosine argument of the law-of-cosines reduction:
/// `(d^2 + bottom^2 - top^2) / (2 * bottom * r)` with `r` the horizontal
/// projection norm, rounded once to the working scale.
pub open spec fn phi_spec(x: int, y: int, z: int, top: int, bottom: int) -> int {
    round_half_even(
        (d2_spec(x, y, z) + bottom * bottom - top * top) * (ONE_Q8 as int),
        2 * bottom * sqrt_floor(hor2_spec(x, y)),
    )
}

/// The base angle of a leg: the arctangent of its `z` over its `y`.
pub open spec fn base_spec(y: int, z: int) -> int {
    atan2_q8_spec(z, y)
}

/// Whether one leg can reach its end position: the horizontal projection is
/// non-zero and the cosine argument lies in `[-1, 1]`.
pub open spec fn leg_reachable_spec(x: int, y: int, z: int, top: int, bottom: int) -> bool {
    &&& hor2_spec(x, y) != 0
    &&& -(ONE_Q8 as int) <= phi_spec(x, y, z, top, bottom) <= ONE_Q8 as int
}

/// The servo angle of a reachable leg: base plus arccosine of phi on the
/// left branch, base minus it on the right branch.
pub open spec fn servo_angle_spec(x: int, y: int, z: int, top: int, bottom: int, dir: Direction)
    -> int {
    let base = base_spec(y, z);
    let ac = acos_q8_spec(phi_spec(x, y, z, top, bottom));
    match dir {
        Direction::Left => base + ac,
        Direction::Right => base - ac,
    }
}

/// Flipping the direction mirrors the servo angle about the base angle,
/// exactly: the left branch returns `base + acos(phi)`, the right branch
/// `base - acos(phi)`, with identical `base` and `acos(phi)`.
pub proof fn lemma_direction_flip(x: int, y: int, z: int, top: int, bottom: int)
    ensures
        servo_angle_spec(x, y, z, top, bottom, Direction::Left) == base_spec(y, z) + acos_q8_spec(
            phi_spec(x, y, z, top, bottom),
        ),
        servo_angle_spec(x, y, z, top, bottom, Direction::Right) == base_spec(y, z)
            - acos_q8_spec(phi_spec(x, y, z, top, bottom)),
        servo_angle_spec(x, y, z, top, bottom, Direction::Left) - base_spec(y, z) == base_spec(
            y,
            z,
        ) - servo_angle_spec(x, y, z, top, bottom, Direction::Right),
{
}

/// The fixed robot geometry: the two shared leg-segment lengths and the six
/// motors, index-aligned with a platform's six attachment offsets.
#[derive(Clone, Copy, Debug)]
pub struct Kinematics {
    pub top_leg_length: i64,
    pub bottom_leg_length: i64,
    pub motors: [Motor; 6],
}

impl Kinematics {
    /// Positive leg lengths within the engine bound.
    pub open spec fn lengths_wf(self) -> bool {
        &&& 0 < self.top_leg_length <= COORD_LIMIT
        &&& 0 < self.bottom_leg_length <= COORD_LIMIT
    }

    /// Well-formed geometry: valid lengths and all motor bases in range.
    pub open spec fn wf(self) -> bool {
        &&& self.lengths_wf()
        &&& forall|i: int| 0 <= i < 6 ==> (#[trigger] self.motors[i]).position.in_range()
    }

    /// Geometry from the two shared leg lengths and the six motors.
    pub fn new(top_leg_length: i64, bottom_leg_length: i64, motors: [Motor; 6]) -> (k: Kinematics)
        requires
            0 < top_leg_length <= COORD_LIMIT,
            0 < bottom_leg_length <= COORD_LIMIT,
            forall|i: int|
                0 <= i < 6 ==> (#[trigger] motors[i]).position.in_range(),
        ensures
            k == (Kinematics { top_leg_length, bottom_leg_length, motors }),
            k.wf(),
    {
        Kinematics { top_leg_length, bottom_leg_length, motors }
    }

    /// The rotation matrix of an orientation given as roll, pitch and yaw;
    /// see [`build_rotation`].
    pub fn calc_rot_matrix(&self, roll: i64, pitch: i64, yaw: i64) -> (r: RotationMatrix)
        ensures
            r@ == rot_spec(roll as int, pitch as int, yaw as int),
            entries_bounded(r@),
            roll == 0 && pitch == 0 && yaw == 0 ==> r@ == identity_mat(),
    {
        build_rotation(roll, pitch, yaw)
    }

    /// Solves one leg: the servo angle that places the leg's attachment
    /// point at `end_pos`, or `InvalidTargetPosition` when the pose is
    /// unreachable for this leg — exactly when the horizontal projection of
    /// the leg vector is zero or the cosine argument falls outside
    /// `[-1, 1]`.
    pub fn calc_servo_pos(&self, end_pos: &Point, dir: &Direction) -> (res: Result<
        i64,
        KinematicsError,
    >)
        requires
            self.lengths_wf(),
            end_pos.leg_in_range(),
        ensures
            match res {
                Ok(angle) => leg_reachable_spec(
                    end_pos.x as int,
                    end_pos.y as int,
                    end_pos.z as int,
                    self.top_leg_length as int,
                    self.bottom_leg_length as int,
                ) && angle == servo_angle_spec(
                    end_pos.x as int,
                    end_pos.y as int,
                    end_pos.z as int,
                    self.top_leg_length as int,
                    self.bottom_leg_length as int,
                    *dir,
                ) && -700_000_000 <= angle <= 700_000_000,
                Err(e) => !leg_reachable_spec(
                    end_pos.x as int,
                    end_pos.y as int,
                    end_pos.z as int,
                    self.top_leg_length as int,
                    self.bottom_leg_length as int,
                ) && e == KinematicsError::InvalidTargetPosition,
            },
    {
        let x = end_pos.x;
        let y = end_pos.y;
        let z = end_pos.z;
        proof {
            lemma_mul_bound(x as int, x as int, LEG_LIMIT as int, LEG_LIMIT as int);
            lemma_mul_bound(y as int, y as int, LEG_LIMIT as int, LEG_LIMIT as int);
            lemma_mul_bound(z as int, z as int, LEG_LIMIT as int, LEG_LIMIT as int);
            assert((x as int) * (x as int) >= 0 && (y as int) * (y as int) >= 0 && (z as int) * (
            z as int) >= 0) by (nonlinear_arith);
        }
        let hor2: i128 = (x as i128) * (x as i128) + (y as i128) * (y as i128);
        let rq: u128 = isqrt_u128(hor2 as u128);
        if rq == 0 {
            // The bracketing of the square root pins hor2 below one.
            proof {
                assert(((rq as int) + 1) * ((rq as int) + 1) == 1) by (nonlinear_arith)
                    requires
                        rq == 0,
                ;
                assert(hor2_spec(x as int, y as int) == 0);
            }
            return Err(KinematicsError::InvalidTargetPosition);
        }
        proof {
            assert((rq as int) * (rq as int) >= 1) by (nonlinear_arith)
                requires
                    rq >= 1,
            ;
            assert(hor2_spec(x as int, y as int) != 0);
        }
        let d2: i128 = hor2 + (z as i128) * (z as i128);
        let b = self.bottom_leg_length;
        let t = self.top_leg_length;
        proof {
            lemma_mul_bound(b as int, b as int, COORD_LIMIT as int, COORD_LIMIT as int);
            lemma_mul_bound(t as int, t as int, COORD_LIMIT as int, COORD_LIMIT as int);
            assert((b as int) * (b as int) >= 0) by (nonlinear_arith);
            assert((2 * (b as int)) * (rq as int) >= 2 && (2 * (b as int)) * (rq as int) <= 2
                * (COORD_LIMIT as int) * 10_000_000_000_000_000) by (nonlinear_arith)
                requires
                    1 <= rq <= 10_000_000_000_000_000,
                    0 < b <= COORD_LIMIT,
            ;
        }
        let num: i128 = d2 + (b as i128) * (b as i128) - (t as i128) * (t as i128);
        let den: i128 = (2 * (b as i128)) * (rq as i128);
        let phi: i128 = rhe_i128(num * 100_000_000, den);
        if phi > 100_000_000 || phi < -100_000_000 {
            return Err(KinematicsError::InvalidTargetPosition);
        }
        let base = atan2_q8(z, y);
        let ac = acos_q8(phi as i64);
        match dir {
            Direction::Left => Ok(base + ac),
            Direction::Right => Ok(base - ac),
        }
    }

    /// The `x` coordinate of leg `i`'s vector for a pose, over the model of
    /// the rounded rotation matrix.
    pub open spec fn leg_x_at(self, target: Point, ori: Orientation, platform: Platform, i: int)
        -> int {
        leg_spec_x(
            target,
            rot_spec(ori.roll as int, ori.pitch as int, ori.yaw as int),
            platform.arm_positions[i],
            self.motors[i].position,
        )
    }

    /// The `y` coordinate of leg `i`'s vector for a pose.
    pub open spec fn leg_y_at(self, target: Point, ori: Orientation, platform: Platform, i: int)
        -> int {
        leg_spec_y(
            target,
            rot_spec(ori.roll as int, ori.pitch as int, ori.yaw as int),
            platform.arm_positions[i],
            self.motors[i].position,
        )
    }

    /// The `z` coordinate of leg `i`'s vector for a pose.
    pub open spec fn leg_z_at(self, target: Point, ori: Orientation, platform: Platform, i: int)
        -> int {
        leg_spec_z(
            target,
            rot_spec(ori.roll as int, ori.pitch as int, ori.yaw as int),
            platform.arm_positions[i],
            self.motors[i].position,
        )
    }

    /// Whether leg `i` can reach the pose.
    pub open spec fn leg_reachable_at(
        self,
        target: Point,
        ori: Orientation,
        platform: Platform,
        i: int,
    ) -> bool {
        leg_reachable_spec(
            self.leg_x_at(target, ori, platform, i),
            self.leg_y_at(target, ori, platform, i),
            self.leg_z_at(target, ori, platform, i),
            self.top_leg_length as int,
            self.bottom_leg_length as int,
        )
    }

    /// The servo angle of leg `i` for the pose.
    pub open spec fn servo_angle_at(
        self,
        target: Point,
        ori: Orientation,
        platform: Platform,
        i: int,
    ) -> int {
        servo_angle_spec(
            self.leg_x_at(target, ori, platform, i),
            self.leg_y_at(target, ori, platform, i),
            self.leg_z_at(target, ori, platform, i),
            self.top_leg_length as int,
            self.bottom_leg_length as int,
            self.motors[i].direction,
        )
    }

    /// Computes all six servo angles that place the platform at the target
    /// pose, index-aligned with the motors. Fails on the first leg that
    /// cannot reach the pose, naming that leg; no partial result is ever
    /// returned.
    pub fn inverse_kinematics(
        &self,
        target_pos: Point,
        target_orientation: Orientation,
        platform: Platform,
    ) -> (res: Result<[i64; 6], LegFailure>)
        requires
            self.wf(),
            target_pos.in_range(),
            platform.in_range(),
        ensures
            match res {
                Ok(angles) => forall|i: int|
                    0 <= i < 6 ==> #[trigger] self.leg_reachable_at(
                        target_pos,
                        target_orientation,
                        platform,
                        i,
                    ) && angles[i] == self.servo_angle_at(
                        target_pos,
                        target_orientation,
                        platform,
                        i,
                    ),
                Err(f) => {
                    &&& 0 <= f.leg < 6
                    &&& f.error == KinematicsError::InvalidTargetPosition
                    &&& !self.leg_reachable_at(
                        target_pos,
                        target_orientation,
                        platform,
                        f.leg as int,
                    )
                    &&& forall|j: int|
                        0 <= j < f.leg ==> #[trigger] self.leg_reachable_at(
                            target_pos,
                            target_orientation,
                            platform,
                            j,
                        )
                },
            },
    {
        let rot = build_rotation(
            target_orientation.roll,
            target_orientation.pitch,
            target_orientation.yaw,
        );
        let legs = resolve(&target_pos, &rot, &platform, &self.motors);
        let l0 = legs[0];
        let a0 = match self.calc_servo_pos(&l0, &self.motors[0].direction) {
            Ok(v) => v,
            Err(e) => {
                return Err(LegFailure { leg: 0, error: e });
            },
        };
        let l1 = legs[1];
        let a1 = match self.calc_servo_pos(&l1, &self.motors[1].direction) {
            Ok(v) => v,
            Err(e) => {
                return Err(LegFailure { leg: 1, error: e });
            },
        };
        let l2 = legs[2];
        let a2 = match self.calc_servo_pos(&l2, &self.motors[2].direction) {
            Ok(v) => v,
            Err(e) => {
                return Err(LegFailure { leg: 2, error: e });
            },
        };
        let l3 = legs[3];
        let a3 = match self.calc_servo_pos(&l3, &self.motors[3].direction) {
            Ok(v) => v,
            Err(e) => {
                return Err(LegFailure { leg: 3, error: e });
            },
        };
        let l4 = legs[4];
        let a4 = match self.calc_servo_pos(&l4, &self.motors[4].direction) {
            Ok(v) => v,
            Err(e) => {
                return Err(LegFailure { leg: 4, error: e });
            },
        };
        let l5 = legs[5];
        let a5 = match self.calc_servo_pos(&l5, &self.motors[5].direction) {
            Ok(v) => v,
            Err(e) => {
                return Err(LegFailure { leg: 5, error: e });
            },
        };
        let angles = [a0, a1, a2, a3, a4, a5];
        proof {
            assert forall|i: int| 0 <= i < 6 implies #[trigger] self.leg_reachable_at(
                target_pos,
                target_orientation,
                platform,
                i,
            ) && angles[i] == self.servo_angle_at(target_pos, target_orientation, platform, i) by {
                if i == 0 {
                } else if i == 1 {
                } else if i == 2 {
                } else if i == 3 {
                } else if i == 4 {
                } else {
                    assert(i == 5);
                }
            }
        }
        Ok(angles)
    }
}

/// Resolves all six world-frame leg vectors of a pose: for leg `i`, the
/// target position plus the rotated attachment offset, minus the motor base.
/// With the identity rotation and a zero target each leg vector is exactly
/// the attachment offset minus the motor base.
pub fn resolve(target: &Point, rot: &RotationMatrix, platform: &Platform, motors: &[Motor; 6])
    -> (legs: [Point; 6])
    requires
        entries_bounded(rot@),
        target.in_range(),
        platform.in_range(),
        forall|i: int| 0 <= i < 6 ==> (#[trigger] motors[i]).position.in_range(),
    ensures
        forall|i: int|
            0 <= i < 6 ==> {
                &&& (#[trigger] legs[i]).x == leg_spec_x(
                    *target,
                    rot@,
                    platform.arm_positions[i],
                    motors[i].position,
                )
                &&& legs[i].y == leg_spec_y(*target, rot@, platform.arm_positions[i], motors[i].position)
                &&& legs[i].z == leg_spec_z(*target, rot@, platform.arm_positions[i], motors[i].position)
                &&& legs[i].leg_in_range()
            },
        (rot@ == identity_mat() && *target == (Point { x: 0, y: 0, z: 0 })) ==> forall|i: int|
            0 <= i < 6 ==> {
                &&& (#[trigger] legs[i]).x == platform.arm_positions[i].x - motors[i].position.x
                &&& legs[i].y == platform.arm_positions[i].y - motors[i].position.y
                &&& legs[i].z == platform.arm_positions[i].z - motors[i].position.z
            },
{
    let l0 = leg_vector(target, rot, &platform.arm_positions[0], &motors[0].position);
    let l1 = leg_vector(target, rot, &platform.arm_positions[1], &motors[1].position);
    let l2 = leg_vector(target, rot, &platform.arm_positions[2], &motors[2].position);
    let l3 = leg_vector(target, rot, &platform.arm_positions[3], &motors[3].position);
    let l4 = leg_vector(target, rot, &platform.arm_positions[4], &motors[4].position);
    let l5 = leg_vector(target, rot, &platform.arm_positions[5], &motors[5].position);
    let legs = [l0, l1, l2, l3, l4, l5];
    proof {
        assert forall|i: int| 0 <= i < 6 implies {
            &&& (#[trigger] legs[i]).x == leg_spec_x(
                *target,
                rot@,
                platform.arm_positions[i],
                motors[i].position,
            )
            &&& legs[i].y == leg_spec_y(*target, rot@, platform.arm_positions[i], motors[i].position)
            &&& legs[i].z == leg_spec_z(*target, rot@, platform.arm_positions[i], motors[i].position)
            &&& legs[i].leg_in_range()
        } by {
            if i == 0 {
            } else if i == 1 {
            } else if i == 2 {
            } else if i == 3 {
            } else if i == 4 {
            } else {
                assert(i == 5);
            }
        }
    }
    legs
}

} // verus!
