//! Conversions between the wire geometry of EGM messages and 3D vectors,
//! quaternions and rigid transforms.
//!
//! Conversions into the wire types always succeed. Conversions out of them
//! check first that the data they need is there.
use vstd::prelude::*;

use crate::double::Double;
use crate::msg::{EgmCartesian, EgmCartesianSpeed, EgmPose, EgmQuaternion};

verus! {

/// A 3D vector, in millimeters for a position or mm/s for a velocity.
#[derive(Clone, Copy, Debug, PartialEq, Eq, Structural)]
pub struct Vector3 {
    pub x: Double,
    pub y: Double,
    pub z: Double,
}

/// A rotation as a quaternion with scalar part `w`.
///
/// No normalization is applied: the components are carried as they are.
#[derive(Clone, Copy, Debug, PartialEq, Eq, Structural)]
pub struct Quaternion {
    pub w: Double,
    pub x: Double,
    pub y: Double,
    pub z: Double,
}

/// A rigid transform: a rotation followed by a translation, without scale.
#[derive(Clone, Copy, Debug, PartialEq, Eq, Structural)]
pub struct RigidTransform {
    pub rotation: Quaternion,
    pub translation: Vector3,
}

/// Error converting a cartesian speed to a vector.
#[derive(Clone, Copy, Debug, PartialEq, Eq, Structural)]
pub enum TryFromEgmCartesianSpeedError {
    /// The speed did not hold exactly three values; this is how many it held.
    WrongNumberOfValues(usize),
}

/// Error converting a pose to a rigid transform.
#[derive(Clone, Copy, Debug, PartialEq, Eq, Structural)]
pub enum TryFromEgmPoseError {
    /// The pose has no position.
    MissingPosition,
    /// The pose has no quaternion orientation.
    MissingOrientation,
}

/// The vector of a cartesian position.
pub open spec fn vector_of_cartesian(c: EgmCartesian) -> Vector3 {
    Vector3 { x: c.x, y: c.y, z: c.z }
}

/// The cartesian position of a vector.
pub open spec fn cartesian_of_vector(v: Vector3) -> EgmCartesian {
    EgmCartesian { x: v.x, y: v.y, z: v.z }
}

/// The rotation of a wire quaternion.
pub open spec fn rotation_of_quaternion(q: EgmQuaternion) -> Quaternion {
    Quaternion { w: q.u0, x: q.u1, y: q.u2, z: q.u3 }
}

/// The wire quaternion of a rotation.
pub open spec fn quaternion_of_rotation(q: Quaternion) -> EgmQuaternion {
    EgmQuaternion { u0: q.w, u1: q.x, u2: q.y, u3: q.z }
}

/// The vector of a cartesian speed, which needs exactly three values.
pub open spec fn vector_of_speed(s: Seq<Double>) -> Result<Vector3, TryFromEgmCartesianSpeedError> {
    if s.len() == 3 {
        Ok(Vector3 { x: s[0], y: s[1], z: s[2] })
    } else {
        Err(TryFromEgmCartesianSpeedError::WrongNumberOfValues(s.len() as usize))
    }
}

/// The rigid transform of a pose, which needs a position and a quaternion
/// orientation; a missing position is reported first.
pub open spec fn transform_of_pose(p: EgmPose) -> Result<RigidTransform, TryFromEgmPoseError> {
    match (p.pos, p.orient) {
        (None, _) => Err(TryFromEgmPoseError::MissingPosition),
        (Some(_), None) => Err(TryFromEgmPoseError::MissingOrientation),
        (Some(pos), Some(orient)) => Ok(
            RigidTransform {
                rotation: rotation_of_quaternion(orient),
                translation: vector_of_cartesian(pos),
            },
        ),
    }
}

/// The pose of a rigid transform: its translation and rotation, without
/// Euler angles.
pub open spec fn pose_of_transform(t: RigidTransform) -> EgmPose {
    EgmPose {
        pos: Some(cartesian_of_vector(t.translation)),
        orient: Some(quaternion_of_rotation(t.rotation)),
        euler: None,
    }
}

/// Convert a cartesian position to a vector.
pub fn cartesian_to_vector(c: &EgmCartesian) -> (r: Vector3)
    ensures
        r == vector_of_cartesian(*c),
{
    Vector3 { x: c.x, y: c.y, z: c.z }
}

/// Convert a vector to a cartesian position.
pub fn vector_to_cartesian(v: &Vector3) -> (r: EgmCartesian)
    ensures
        r == cartesian_of_vector(*v),
{
    EgmCartesian::from_mm(v.x, v.y, v.z)
}

/// Convert a wire quaternion to a rotation.
pub fn quaternion_to_rotation(q: &EgmQuaternion) -> (r: Quaternion)
    ensures
        r == rotation_of_quaternion(*q),
{
    Quaternion { w: q.u0, x: q.u1, y: q.u2, z: q.u3 }
}

/// Convert a rotation to a wire quaternion.
pub fn rotation_to_quaternion(q: &Quaternion) -> (r: EgmQuaternion)
    ensures
        r == quaternion_of_rotation(*q),
{
    EgmQuaternion::from_wxyz(q.w, q.x, q.y, q.z)
}

/// Convert a cartesian speed to a velocity vector.
///
/// Fails with [`TryFromEgmCartesianSpeedError::WrongNumberOfValues`] unless
/// the speed holds exactly three values.
pub fn speed_to_vector(s: &EgmCartesianSpeed) -> (r: Result<Vector3, TryFromEgmCartesianSpeedError>)
    ensures
        r == vector_of_speed(s.value@),
{
    if s.value.len() == 3 {
        Ok(Vector3 { x: s.value[0], y: s.value[1], z: s.value[2] })
    } else {
        Err(TryFromEgmCartesianSpeedError::WrongNumberOfValues(s.value.len()))
    }
}

/// Convert a velocity vector to a cartesian speed of three values.
pub fn vector_to_speed(v: &Vector3) -> (r: EgmCartesianSpeed)
    ensures
        r.value@ == seq![v.x, v.y, v.z],
{
    EgmCartesianSpeed::from_xyz_mm(v.x, v.y, v.z)
}

/// Convert a pose to a rigid transform.
///
/// Fails with [`TryFromEgmPoseError::MissingPosition`] if the pose has no
/// position, else with [`TryFromEgmPoseError::MissingOrientation`] if it has no
/// quaternion orientation. Euler angles are not read.
pub fn pose_to_transform(p: &EgmPose) -> (r: Result<RigidTransform, TryFromEgmPoseError>)
    ensures
        r == transform_of_pose(*p),
{
    let position = match &p.pos {
        Some(x) => x,
        None => return Err(TryFromEgmPoseError::MissingPosition),
    };
    let orientation = match &p.orient {
        Some(x) => x,
        None => return Err(TryFromEgmPoseError::MissingOrientation),
    };
    Ok(
        RigidTransform {
            rotation: quaternion_to_rotation(orientation),
            translation: cartesian_to_vector(position),
        },
    )
}

/// Convert a rigid transform to a pose with a position and a quaternion
/// orientation.
pub fn transform_to_pose(t: &RigidTransform) -> (r: EgmPose)
    ensures
        r == pose_of_transform(*t),
{
    EgmPose::new(vector_to_cartesian(&t.translation), rotation_to_quaternion(&t.rotation))
}

/// A pose with a position and a quaternion orientation converts to a rigid
/// transform, and back to the same position and orientation.
pub proof fn lemma_pose_round_trip(p: EgmPose)
    requires
        p.pos is Some,
        p.orient is Some,
    ensures
        transform_of_pose(p) is Ok,
        pose_of_transform(transform_of_pose(p)->Ok_0).pos == p.pos,
        pose_of_transform(transform_of_pose(p)->Ok_0).orient == p.orient,
{
}

/// A rigid transform converts to a pose that converts back to the same
/// transform.
pub proof fn lemma_transform_round_trip(t: RigidTransform)
    ensures
        transform_of_pose(pose_of_transform(t)) == Ok::<RigidTransform, TryFromEgmPoseError>(t),
{
}

/// A velocity vector converts to a cartesian speed that converts back to the
/// same vector.
pub proof fn lemma_speed_round_trip(v: Vector3)
    ensures
        vector_of_speed(seq![v.x, v.y, v.z]) == Ok::<Vector3, TryFromEgmCartesianSpeedError>(v),
{
}

} // verus!
