//! Constructors and accessors of EGM messages.
use vstd::prelude::*;

use crate::double::Double;
use crate::clock::clock_timestamp_ms;
use crate::msg::{
    EgmCartesian, EgmCartesianSpeed, EgmClock, EgmEuler, EgmExternalJoints, EgmFeedBack,
    EgmHeader, EgmJoints, EgmMciState, EgmMeasuredForce, EgmMotorState, EgmPathCorr, EgmPlanned,
    EgmPose, EgmQuaternion, EgmRapidCtrlExecState, EgmRobot, EgmSensor, EgmSensorPathCorr,
    EgmSpeedRef, EgmTestSignals, MciStateType, MessageType, MotorStateType, RapidCtrlExecStateType,
};

verus! {

/// The code of a message type on the wire.
pub open spec fn message_type_code(kind: MessageType) -> i32 {
    match kind {
        MessageType::MsgtypeUndefined => 0,
        MessageType::MsgtypeCommand => 1,
        MessageType::MsgtypeData => 2,
        MessageType::MsgtypeCorrection => 3,
        MessageType::MsgtypePathCorrection => 4,
    }
}

/// The motor state of a wire code; an unknown code reads as undefined.
pub open spec fn motor_state_of_code(code: i32) -> MotorStateType {
    if code == 1 {
        MotorStateType::MotorsOn
    } else if code == 2 {
        MotorStateType::MotorsOff
    } else {
        MotorStateType::MotorsUndefined
    }
}

/// The motion control interface state of a wire code; an unknown code reads
/// as undefined.
pub open spec fn mci_state_of_code(code: i32) -> MciStateType {
    if code == 1 {
        MciStateType::MciError
    } else if code == 2 {
        MciStateType::MciStopped
    } else if code == 3 {
        MciStateType::MciRunning
    } else {
        MciStateType::MciUndefined
    }
}

/// The RAPID execution state of a wire code; an unknown code reads as
/// undefined.
pub open spec fn rapid_state_of_code(code: i32) -> RapidCtrlExecStateType {
    if code == 1 {
        RapidCtrlExecStateType::RapidStopped
    } else if code == 2 {
        RapidCtrlExecStateType::RapidRunning
    } else {
        RapidCtrlExecStateType::RapidUndefined
    }
}

impl MessageType {
    /// The code of the message type on the wire.
    pub fn as_i32(self) -> (r: i32)
        ensures
            r == message_type_code(self),
    {
        match self {
            MessageType::MsgtypeUndefined => 0,
            MessageType::MsgtypeCommand => 1,
            MessageType::MsgtypeData => 2,
            MessageType::MsgtypeCorrection => 3,
            MessageType::MsgtypePathCorrection => 4,
        }
    }
}

impl EgmMotorState {
    /// The motor state; an unknown code reads as undefined.
    pub fn state(&self) -> (r: MotorStateType)
        ensures
            r == motor_state_of_code(self.state),
    {
        if self.state == 1 {
            MotorStateType::MotorsOn
        } else if self.state == 2 {
            MotorStateType::MotorsOff
        } else {
            MotorStateType::MotorsUndefined
        }
    }
}

impl EgmMciState {
    /// The motion control interface state; an unknown code reads as undefined.
    pub fn state(&self) -> (r: MciStateType)
        ensures
            r == mci_state_of_code(self.state),
    {
        if self.state == 1 {
            MciStateType::MciError
        } else if self.state == 2 {
            MciStateType::MciStopped
        } else if self.state == 3 {
            MciStateType::MciRunning
        } else {
            MciStateType::MciUndefined
        }
    }
}

impl EgmRapidCtrlExecState {
    /// The RAPID execution state; an unknown code reads as undefined.
    pub fn state(&self) -> (r: RapidCtrlExecStateType)
        ensures
            r == rapid_state_of_code(self.state),
    {
        if self.state == 1 {
            RapidCtrlExecStateType::RapidStopped
        } else if self.state == 2 {
            RapidCtrlExecStateType::RapidRunning
        } else {
            RapidCtrlExecStateType::RapidUndefined
        }
    }
}

impl EgmHeader {
    /// Make a new header.
    pub fn new(seqno: u32, timestamp_ms: u32, kind: MessageType) -> (r: EgmHeader)
        ensures
            r == (EgmHeader {
                seqno: Some(seqno),
                tm: Some(timestamp_ms),
                mtype: Some(message_type_code(kind)),
            }),
    {
        EgmHeader { seqno: Some(seqno), tm: Some(timestamp_ms), mtype: Some(kind.as_i32()) }
    }

    /// Make a new command header.
    pub fn command(seqno: u32, timestamp_ms: u32) -> (r: EgmHeader)
        ensures
            r == EgmHeader::spec_new(seqno, timestamp_ms, MessageType::MsgtypeCommand),
    {
        EgmHeader::new(seqno, timestamp_ms, MessageType::MsgtypeCommand)
    }

    /// Make a new data header.
    pub fn data(seqno: u32, timestamp_ms: u32) -> (r: EgmHeader)
        ensures
            r == EgmHeader::spec_new(seqno, timestamp_ms, MessageType::MsgtypeData),
    {
        EgmHeader::new(seqno, timestamp_ms, MessageType::MsgtypeData)
    }

    /// Make a new correction header.
    pub fn correction(seqno: u32, timestamp_ms: u32) -> (r: EgmHeader)
        ensures
            r == EgmHeader::spec_new(seqno, timestamp_ms, MessageType::MsgtypeCorrection),
    {
        EgmHeader::new(seqno, timestamp_ms, MessageType::MsgtypeCorrection)
    }

    /// Make a new path correction header.
    pub fn path_correction(seqno: u32, timestamp_ms: u32) -> (r: EgmHeader)
        ensures
            r == EgmHeader::spec_new(seqno, timestamp_ms, MessageType::MsgtypePathCorrection),
    {
        EgmHeader::new(seqno, timestamp_ms, MessageType::MsgtypePathCorrection)
    }

    /// The header with all three fields present.
    pub open spec fn spec_new(seqno: u32, timestamp_ms: u32, kind: MessageType) -> EgmHeader {
        EgmHeader { seqno: Some(seqno), tm: Some(timestamp_ms), mtype: Some(message_type_code(kind)) }
    }
}

impl EgmCartesian {
    /// Create a cartesian position from x, y and z components in millimeters.
    pub fn from_mm(x: Double, y: Double, z: Double) -> (r: EgmCartesian)
        ensures
            r == (EgmCartesian { x, y, z }),
    {
        EgmCartesian { x, y, z }
    }

    /// Get the cartesian position as [x, y, z] array in millimeters.
    pub fn as_mm(&self) -> (r: [Double; 3])
        ensures
            r@ == seq![self.x, self.y, self.z],
    {
        [self.x, self.y, self.z]
    }
}

impl EgmQuaternion {
    /// Create a new quaternion from w, x, y and z components.
    pub fn from_wxyz(w: Double, x: Double, y: Double, z: Double) -> (r: EgmQuaternion)
        ensures
            r == (EgmQuaternion { u0: w, u1: x, u2: y, u3: z }),
    {
        EgmQuaternion { u0: w, u1: x, u2: y, u3: z }
    }

    /// Get the quaternion as [w, x, y, z] array.
    pub fn as_wxyz(&self) -> (r: [Double; 4])
        ensures
            r@ == seq![self.u0, self.u1, self.u2, self.u3],
    {
        [self.u0, self.u1, self.u2, self.u3]
    }
}

impl EgmEuler {
    /// Create a new rotation from X, Y and Z rotations specified in degrees.
    pub fn from_xyz_degrees(x: Double, y: Double, z: Double) -> (r: EgmEuler)
        ensures
            r == (EgmEuler { x, y, z }),
    {
        EgmEuler { x, y, z }
    }

    /// Get the rotation as [x, y, z] array in degrees.
    pub fn as_xyz_degrees(&self) -> (r: [Double; 3])
        ensures
            r@ == seq![self.x, self.y, self.z],
    {
        [self.x, self.y, self.z]
    }
}

impl EgmPose {
    /// Create a new 6-DOF pose from a position and orientation.
    pub fn new(position: EgmCartesian, orientation: EgmQuaternion) -> (r: EgmPose)
        ensures
            r == (EgmPose { pos: Some(position), orient: Some(orientation), euler: None }),
    {
        EgmPose { pos: Some(position), orient: Some(orientation), euler: None }
    }
}

impl EgmCartesianSpeed {
    /// Create a cartesian speed from linear velocity in mm/s.
    pub fn from_xyz_mm(x: Double, y: Double, z: Double) -> (r: EgmCartesianSpeed)
        ensures
            r.value@ == seq![x, y, z],
    {
        EgmCartesianSpeed { value: vec![x, y, z] }
    }
}

impl EgmJoints {
    /// Create a new joint list from joint values in degrees.
    pub fn from_degrees(joints: Vec<Double>) -> (r: EgmJoints)
        ensures
            r.joints@ == joints@,
    {
        EgmJoints { joints }
    }
}

impl EgmExternalJoints {
    /// Create a new external joint list from joint values in degrees.
    pub fn from_degrees(joints: Vec<Double>) -> (r: EgmExternalJoints)
        ensures
            r.joints@ == joints@,
    {
        EgmExternalJoints { joints }
    }
}

impl EgmPlanned {
    /// Create a new joint target.
    pub fn joints(joints: EgmJoints, time: EgmClock) -> (r: EgmPlanned)
        ensures
            r.joints == Some(joints),
            r.cartesian is None,
            r.external_joints is None,
            r.time == Some(time),
    {
        EgmPlanned { time: Some(time), joints: Some(joints), cartesian: None, external_joints: None }
    }

    /// Create a new 6-DOF pose target.
    pub fn pose(pose: EgmPose, time: EgmClock) -> (r: EgmPlanned)
        ensures
            r.joints is None,
            r.cartesian == Some(pose),
            r.external_joints is None,
            r.time == Some(time),
    {
        EgmPlanned { time: Some(time), cartesian: Some(pose), joints: None, external_joints: None }
    }
}

impl EgmSpeedRef {
    /// Create a joint space speed reference.
    pub fn joints(joints: EgmJoints) -> (r: EgmSpeedRef)
        ensures
            r.joints == Some(joints),
            r.cartesians is None,
            r.external_joints is None,
    {
        EgmSpeedRef { joints: Some(joints), external_joints: None, cartesians: None }
    }

    /// Create a cartesian speed reference.
    pub fn cartesian(cartesian: EgmCartesianSpeed) -> (r: EgmSpeedRef)
        ensures
            r.joints is None,
            r.cartesians == Some(cartesian),
            r.external_joints is None,
    {
        EgmSpeedRef { cartesians: Some(cartesian), joints: None, external_joints: None }
    }
}

impl EgmPathCorr {
    /// Create a new path correction.
    pub fn new(position: EgmCartesian, age_ms: u32) -> (r: EgmPathCorr)
        ensures
            r == (EgmPathCorr { pos: position, age: age_ms }),
    {
        EgmPathCorr { pos: position, age: age_ms }
    }
}

impl EgmSensor {
    /// Create a sensor message containing a joint space target.
    ///
    /// The header is a correction header whose timestamp is made from `time`.
    pub fn joint_target(sequence_number: u32, joints: EgmJoints, time: EgmClock) -> (r: EgmSensor)
        ensures
            r.header == Some(
                EgmHeader::spec_new(
                    sequence_number,
                    clock_timestamp_ms(time) as u32,
                    MessageType::MsgtypeCorrection,
                ),
            ),
            r.planned == Some(
                EgmPlanned { joints: Some(joints), cartesian: None, external_joints: None, time: Some(time) },
            ),
            r.speed_ref is None,
    {
        EgmSensor {
            header: Some(EgmHeader::correction(sequence_number, time.as_timestamp_ms())),
            planned: Some(EgmPlanned::joints(joints, time)),
            speed_ref: None,
        }
    }

    /// Create a sensor message containing a joint space target and a joint
    /// space speed reference.
    ///
    /// The header is a correction header whose timestamp is made from `time`.
    pub fn joint_target_with_speed(
        sequence_number: u32,
        joints: EgmJoints,
        speed: EgmJoints,
        time: EgmClock,
    ) -> (r: EgmSensor)
        ensures
            r.header == Some(
                EgmHeader::spec_new(
                    sequence_number,
                    clock_timestamp_ms(time) as u32,
                    MessageType::MsgtypeCorrection,
                ),
            ),
            r.planned == Some(
                EgmPlanned { joints: Some(joints), cartesian: None, external_joints: None, time: Some(time) },
            ),
            r.speed_ref == Some(
                EgmSpeedRef { joints: Some(speed), cartesians: None, external_joints: None },
            ),
    {
        EgmSensor {
            header: Some(EgmHeader::correction(sequence_number, time.as_timestamp_ms())),
            planned: Some(EgmPlanned::joints(joints, time)),
            speed_ref: Some(EgmSpeedRef::joints(speed)),
        }
    }

    /// Create a sensor message containing a 6-DOF pose target.
    ///
    /// The header is a correction header whose timestamp is made from `time`.
    pub fn pose_target(sequence_number: u32, pose: EgmPose, time: EgmClock) -> (r: EgmSensor)
        ensures
            r.header == Some(
                EgmHeader::spec_new(
                    sequence_number,
                    clock_timestamp_ms(time) as u32,
                    MessageType::MsgtypeCorrection,
                ),
            ),
            r.planned == Some(
                EgmPlanned { joints: None, cartesian: Some(pose), external_joints: None, time: Some(time) },
            ),
            r.speed_ref is None,
    {
        EgmSensor {
            header: Some(EgmHeader::correction(sequence_number, time.as_timestamp_ms())),
            planned: Some(EgmPlanned::pose(pose, time)),
            speed_ref: None,
        }
    }

    /// Create a sensor message containing a 6-DOF pose target with a cartesian
    /// speed reference.
    ///
    /// The header is a correction header whose timestamp is made from `time`.
    pub fn pose_target_with_speed(
        sequence_number: u32,
        pose: EgmPose,
        speed: EgmCartesianSpeed,
        time: EgmClock,
    ) -> (r: EgmSensor)
        ensures
            r.header == Some(
                EgmHeader::spec_new(
                    sequence_number,
                    clock_timestamp_ms(time) as u32,
                    MessageType::MsgtypeCorrection,
                ),
            ),
            r.planned == Some(
                EgmPlanned { joints: None, cartesian: Some(pose), external_joints: None, time: Some(time) },
            ),
            r.speed_ref == Some(
                EgmSpeedRef { joints: None, cartesians: Some(speed), external_joints: None },
            ),
    {
        EgmSensor {
            header: Some(EgmHeader::correction(sequence_number, time.as_timestamp_ms())),
            planned: Some(EgmPlanned::pose(pose, time)),
            speed_ref: Some(EgmSpeedRef::cartesian(speed)),
        }
    }
}

impl EgmSensorPathCorr {
    /// Create a sensor message containing a path correction.
    pub fn new(sequence_number: u32, timestamp_ms: u32, correction: EgmCartesian, age_ms: u32) -> (r:
        EgmSensorPathCorr)
        ensures
            r.header == Some(
                EgmHeader::spec_new(sequence_number, timestamp_ms, MessageType::MsgtypePathCorrection),
            ),
            r.path_corr == Some(EgmPathCorr { pos: correction, age: age_ms }),
    {
        EgmSensorPathCorr {
            header: Some(EgmHeader::path_correction(sequence_number, timestamp_ms)),
            path_corr: Some(EgmPathCorr::new(correction, age_ms)),
        }
    }
}

} // verus!
