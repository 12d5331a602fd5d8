//! Tests of the kinematics core: rotation building, the servo angle solver
//! and the six-leg engine. All values are fixed-point decimals at scale
//! `10^8`; reference values computed in `f64` serve as oracles within a
//! stated tolerance.

use kinematics_controller::errors::KinematicsError;
use kinematics_controller::kinematics::{
    resolve, Direction, Kinematics, Motor, MotorId, Orientation, Platform, Point,
};
use kinematics_controller::rotation::RotationMatrix;
use kinematics_controller::trig::{acos_q8, atan2_q8};

fn test_motors() -> [Motor; 6] {
    [
        Motor::new(Point::new(2_830_000_000, -9_445_000_000, 1_000_000_000), Direction::Right, MotorId::Zero),
        Motor::new(Point::new(9_595_000_000, 2_272_000_000, 1_000_000_000), Direction::Left, MotorId::One),
        Motor::new(Point::new(6_765_000_000, 7_173_000_000, 1_000_000_000), Direction::Right, MotorId::Two),
        Motor::new(Point::new(-6_765_000_000, 7_173_000_000, 1_000_000_000), Direction::Left, MotorId::Three),
        Motor::new(Point::new(-9_595_000_000, 2_272_000_000, 1_000_000_000), Direction::Right, MotorId::Four),
        Motor::new(Point::new(-2_830_000_000, -9_445_000_000, 1_000_000_000), Direction::Left, MotorId::Five),
    ]
}

fn mat(entries: [i64; 9]) -> RotationMatrix {
    RotationMatrix {
        m00: entries[0],
        m01: entries[1],
        m02: entries[2],
        m10: entries[3],
        m11: entries[4],
        m12: entries[5],
        m20: entries[6],
        m21: entries[7],
        m22: entries[8],
    }
}

#[test]
fn rotation_matrix_test() {
    let deg_test_1 = mat([
        100_000_000, 0, 0,
        0, 100_000_000, 0,
        0, 0, 100_000_000,
    ]);
    let deg_test_2 = mat([
        0, -70_710_000, 70_710_000,
        50_000_000, 61_240_000, 61_240_000,
        -86_600_000, 35_360_000, 35_360_000,
    ]);
    let deg_test_3 = mat([
        57_800_000, -17_300_000, 79_750_000,
        49_390_000, 85_210_000, -17_300_000,
        -64_960_000, 49_390_000, 57_800_000,
    ]);

    let test = Kinematics::new(11_900_000_000, 2_110_000_000, test_motors());
    // Angles in radians at scale 10^8: pi/4, pi/3, pi/2, sqrt(2)/2.
    let pi_4: i64 = 78_539_816;
    let pi_3: i64 = 104_719_755;
    let pi_2: i64 = 157_079_633;
    let s22: i64 = 70_710_678;
    assert_eq!(deg_test_1, test.calc_rot_matrix(0, 0, 0));
    assert_eq!(deg_test_2, test.calc_rot_matrix(pi_4, pi_3, pi_2));
    assert_eq!(deg_test_3, test.calc_rot_matrix(s22, s22, s22));
}

#[test]
fn calc_angle_test() {
    let motors = test_motors();
    assert_eq!(*motors[0].get_direction(), Direction::Right);
    assert_eq!(motors[1].get_position().x, 9_595_000_000);
}

#[test]
fn zero_horizontal_projection_fails() {
    let k = Kinematics::new(11_900_000_000, 2_110_000_000, test_motors());
    // A leg vector pointing straight up has zero horizontal projection.
    let res = k.calc_servo_pos(&Point::new(0, 0, 11_500_000_000), &Direction::Left);
    assert_eq!(res, Err(KinematicsError::InvalidTargetPosition));
    let res = k.calc_servo_pos(&Point::new(0, 0, 0), &Direction::Right);
    assert_eq!(res, Err(KinematicsError::InvalidTargetPosition));
}

#[test]
fn phi_out_of_range_fails() {
    let k = Kinematics::new(11_900_000_000, 2_110_000_000, test_motors());
    // One unit of horizontal reach with these leg lengths puts the cosine
    // argument far below -1.
    let res = k.calc_servo_pos(&Point::new(0, 100_000_000, 0), &Direction::Left);
    assert_eq!(res, Err(KinematicsError::InvalidTargetPosition));
}

#[test]
fn direction_flip_mirrors_angle() {
    let k = Kinematics::new(11_900_000_000, 2_110_000_000, test_motors());
    let leg = Point::new(-566_000_000, 1_889_000_000, 11_500_000_000);
    let left = k.calc_servo_pos(&leg, &Direction::Left).unwrap();
    let right = k.calc_servo_pos(&leg, &Direction::Right).unwrap();
    let base = atan2_q8(leg.z, leg.y);
    // left = base + acos(phi) and right = base - acos(phi): the two branches
    // are mirror images about the base angle, exactly.
    assert_eq!(left + right, 2 * base);
    assert!(left > right);
    // The common half-difference is the arccosine of the solver's phi.
    let phi = {
        let x = leg.x as f64 / 1e8;
        let y = leg.y as f64 / 1e8;
        let z = leg.z as f64 / 1e8;
        let r = (x * x + y * y).sqrt();
        let d2 = x * x + y * y + z * z;
        (d2 + 21.1 * 21.1 - 119.0 * 119.0) / (2.0 * 21.1 * r)
    };
    let half_diff = (left - right) as f64 / 2.0 / 1e8;
    assert!((half_diff - phi.acos()).abs() < 1e-3);
}

#[test]
fn orthonormal_within_tolerance() {
    let k = Kinematics::new(11_900_000_000, 2_110_000_000, test_motors());
    let cases: [(i64, i64, i64); 4] = [
        (10_000_000, -20_000_000, 30_000_000),
        (78_539_816, 104_719_755, 157_079_633),
        (-50_000_000, 120_000_000, -90_000_000),
        (314_159_265, -157_079_633, 62_831_853),
    ];
    for (roll, pitch, yaw) in cases {
        let m = k.calc_rot_matrix(roll, pitch, yaw);
        let r = [
            [m.m00 as f64 / 1e8, m.m01 as f64 / 1e8, m.m02 as f64 / 1e8],
            [m.m10 as f64 / 1e8, m.m11 as f64 / 1e8, m.m12 as f64 / 1e8],
            [m.m20 as f64 / 1e8, m.m21 as f64 / 1e8, m.m22 as f64 / 1e8],
        ];
        for i in 0..3 {
            for j in 0..3 {
                // Column i dot column j of R must be close to identity.
                let dot: f64 = (0..3).map(|t| r[t][i] * r[t][j]).sum();
                let expect = if i == j { 1.0 } else { 0.0 };
                assert!(
                    (dot - expect).abs() < 1e-3,
                    "columns {} {} of {:?}: {}",
                    i,
                    j,
                    (roll, pitch, yaw),
                    dot
                );
            }
        }
    }
}

fn hexagon_platform() -> Platform {
    // Attachment offsets at 0.8 of each motor's radius, in the platform frame.
    let arms = [
        Point::new(2_264_000_000, -7_556_000_000, 0),
        Point::new(7_676_000_000, 1_817_600_000, 0),
        Point::new(5_412_000_000, 5_738_400_000, 0),
        Point::new(-5_412_000_000, 5_738_400_000, 0),
        Point::new(-7_676_000_000, 1_817_600_000, 0),
        Point::new(-2_264_000_000, -7_556_000_000, 0),
    ];
    Platform::new(Point::new(0, 0, 0), arms)
}

#[test]
fn home_pose_leg_vectors_are_offsets() {
    // With zero rotation and zero translation each leg vector equals the
    // attachment offset minus the motor base, exactly.
    let k = Kinematics::new(11_900_000_000, 2_110_000_000, test_motors());
    let platform = hexagon_platform();
    let rot = k.calc_rot_matrix(0, 0, 0);
    let legs = resolve(&Point::new(0, 0, 0), &rot, &platform, &k.motors);
    for i in 0..6 {
        let arm = platform.arm_positions[i];
        let base = k.motors[i].position;
        assert_eq!(legs[i].x, arm.x - base.x);
        assert_eq!(legs[i].y, arm.y - base.y);
        assert_eq!(legs[i].z, arm.z - base.z);
    }
}

#[test]
fn home_pose_round_trip() {
    // Six motors on a regular hexagon, top length 119.0, bottom length 21.1,
    // neutral pose lifted to where every leg can reach. The six angles, fed
    // back through the forward relationship, reconstruct the home leg
    // geometry within floating tolerance.
    let k = Kinematics::new(11_900_000_000, 2_110_000_000, test_motors());
    let platform = hexagon_platform();
    let target = Point::new(0, 0, 12_500_000_000);
    let angles = k
        .inverse_kinematics(target, Orientation::new(0, 0, 0), platform)
        .unwrap();
    let expected: [i64; 6] = [
        -28_557_048,
        330_380_453,
        132_226,
        338_846_094,
        -8_323_713,
        310_157_070,
    ];
    assert_eq!(angles, expected);
    for i in 0..6 {
        let arm = platform.arm_positions[i];
        let base = k.motors[i].position;
        let x = (arm.x + target.x - base.x) as f64 / 1e8;
        let y = (arm.y + target.y - base.y) as f64 / 1e8;
        let z = (arm.z + target.z - base.z) as f64 / 1e8;
        let r = (x * x + y * y).sqrt();
        let d2 = x * x + y * y + z * z;
        let phi = (d2 + 21.1 * 21.1 - 119.0 * 119.0) / (2.0 * 21.1 * r);
        let base_angle = z.atan2(y);
        let theta = angles[i] as f64 / 1e8;
        // Forward relationship: the cosine of the angle measured from the
        // base must reproduce phi, and through the law of cosines the
        // squared leg length.
        let phi_back = (theta - base_angle).cos();
        assert!((phi_back - phi).abs() < 1e-4, "leg {}: {} vs {}", i, phi_back, phi);
        let d2_back = phi_back * 2.0 * 21.1 * r + 119.0 * 119.0 - 21.1 * 21.1;
        assert!((d2_back - d2).abs() < 0.1, "leg {}: {} vs {}", i, d2_back, d2);
    }
}

#[test]
fn inverse_kinematics_reports_failing_leg() {
    let k = Kinematics::new(11_900_000_000, 2_110_000_000, test_motors());
    let platform = hexagon_platform();
    // A pose far below the motors is unreachable; the first leg fails.
    let res = k.inverse_kinematics(
        Point::new(0, 0, -20_000_000_000),
        Orientation::new(0, 0, 0),
        platform,
    );
    let failure = res.unwrap_err();
    assert_eq!(failure.leg, 0);
    assert_eq!(failure.error, KinematicsError::InvalidTargetPosition);
}

#[test]
fn atan2_matches_float_oracle() {
    let cases: [(i64, i64); 8] = [
        (100_000_000, 100_000_000),
        (-300_000_000, 200_000_000),
        (500_000_000, -400_000_000),
        (-200_000_000, -700_000_000),
        (0, -100_000_000),
        (100_000_000, 0),
        (-100_000_000, 0),
        (0, 100_000_000),
    ];
    for (z, y) in cases {
        let got = atan2_q8(z, y) as f64 / 1e8;
        let want = (z as f64).atan2(y as f64);
        assert!((got - want).abs() < 3e-5, "atan2({}, {}): {} vs {}", z, y, got, want);
    }
}

#[test]
fn acos_matches_float_oracle() {
    for c in [-100_000_000i64, -50_000_000, 0, 33_333_333, 50_000_000, 100_000_000] {
        let got = acos_q8(c) as f64 / 1e8;
        let want = (c as f64 / 1e8).acos();
        assert!((got - want).abs() < 3e-5, "acos({}): {} vs {}", c, got, want);
    }
}
