use abbegm::convert::{
    cartesian_to_vector, pose_to_transform, quaternion_to_rotation, rotation_to_quaternion,
    speed_to_vector, transform_to_pose, vector_to_cartesian, vector_to_speed, Quaternion,
    RigidTransform, TryFromEgmCartesianSpeedError, TryFromEgmPoseError, Vector3,
};
use abbegm::msg::{EgmCartesian, EgmCartesianSpeed, EgmEuler, EgmPose, EgmQuaternion};
use abbegm::Double;

fn d(x: f64) -> Double {
    Double::from_bits(x.to_bits())
}

fn position() -> EgmCartesian {
    EgmCartesian::from_mm(d(100.5), d(-20.25), d(300.0))
}

fn orientation() -> EgmQuaternion {
    EgmQuaternion::from_wxyz(d(0.5), d(0.5), d(-0.5), d(0.5))
}

#[test]
fn pose_with_only_position_misses_orientation() {
    let pose = EgmPose { pos: Some(position()), orient: None, euler: None };
    assert_eq!(pose_to_transform(&pose), Err(TryFromEgmPoseError::MissingOrientation));
}

#[test]
fn pose_with_only_orientation_misses_position() {
    let pose = EgmPose { pos: None, orient: Some(orientation()), euler: None };
    assert_eq!(pose_to_transform(&pose), Err(TryFromEgmPoseError::MissingPosition));
}

#[test]
fn empty_pose_reports_position_first() {
    let pose = EgmPose { pos: None, orient: None, euler: Some(EgmEuler::from_xyz_degrees(d(1.0), d(2.0), d(3.0))) };
    assert_eq!(pose_to_transform(&pose), Err(TryFromEgmPoseError::MissingPosition));
}

#[test]
fn pose_round_trips_through_transform() {
    let pose = EgmPose::new(position(), orientation());
    let transform = pose_to_transform(&pose).unwrap();
    assert_eq!(transform.translation, Vector3 { x: d(100.5), y: d(-20.25), z: d(300.0) });
    assert_eq!(transform.rotation, Quaternion { w: d(0.5), x: d(0.5), y: d(-0.5), z: d(0.5) });
    let back = transform_to_pose(&transform);
    assert_eq!(back.pos, Some(position()));
    assert_eq!(back.orient, Some(orientation()));
    assert_eq!(back.euler, None);
    assert_eq!(back.pos.unwrap().as_mm(), [d(100.5), d(-20.25), d(300.0)]);
    assert_eq!(back.orient.unwrap().as_wxyz(), [d(0.5), d(0.5), d(-0.5), d(0.5)]);
}

#[test]
fn transform_round_trips_through_pose() {
    let t = RigidTransform {
        rotation: Quaternion { w: d(1.0), x: d(0.0), y: d(0.0), z: d(0.0) },
        translation: Vector3 { x: d(1.0), y: d(2.0), z: d(3.0) },
    };
    assert_eq!(pose_to_transform(&transform_to_pose(&t)), Ok(t));
}

#[test]
fn speed_of_three_values_converts() {
    let speed = EgmCartesianSpeed::from_xyz_mm(d(1.0), d(2.0), d(3.0));
    assert_eq!(speed_to_vector(&speed), Ok(Vector3 { x: d(1.0), y: d(2.0), z: d(3.0) }));
}

#[test]
fn speed_of_two_or_four_values_fails() {
    let two = EgmCartesianSpeed { value: vec![d(1.0), d(2.0)] };
    assert_eq!(speed_to_vector(&two), Err(TryFromEgmCartesianSpeedError::WrongNumberOfValues(2)));
    let four = EgmCartesianSpeed { value: vec![d(1.0), d(2.0), d(3.0), d(4.0)] };
    assert_eq!(speed_to_vector(&four), Err(TryFromEgmCartesianSpeedError::WrongNumberOfValues(4)));
    let none = EgmCartesianSpeed { value: vec![] };
    assert_eq!(speed_to_vector(&none), Err(TryFromEgmCartesianSpeedError::WrongNumberOfValues(0)));
}

#[test]
fn vector_to_speed_emits_three_values() {
    let v = Vector3 { x: d(4.0), y: d(5.0), z: d(6.0) };
    assert_eq!(vector_to_speed(&v).value, vec![d(4.0), d(5.0), d(6.0)]);
    assert_eq!(speed_to_vector(&vector_to_speed(&v)), Ok(v));
}

#[test]
fn cartesian_and_quaternion_conversions() {
    let v = cartesian_to_vector(&position());
    assert_eq!(v, Vector3 { x: d(100.5), y: d(-20.25), z: d(300.0) });
    assert_eq!(vector_to_cartesian(&v), position());
    let q = quaternion_to_rotation(&orientation());
    assert_eq!(q.w, d(0.5));
    assert_eq!(q.y, d(-0.5));
    assert_eq!(rotation_to_quaternion(&q), orientation());
}

#[test]
fn nan_survives_conversion_bit_for_bit() {
    let nan = Double::from_bits(0x7ff8_0000_dead_beef);
    let c = EgmCartesian::from_mm(nan, d(0.0), d(0.0));
    assert_eq!(cartesian_to_vector(&c).x.to_bits(), 0x7ff8_0000_dead_beef);
}
