//! The EGM message schema.
//!
//! Fields that the protocol marks optional are `Option`s: an absent field is a
//! state of its own, distinct from any default value.
use vstd::prelude::*;

use crate::double::Double;

verus! {

/// Type of an EGM message, as carried in [`EgmHeader::mtype`].
#[derive(Clone, Copy, Debug, PartialEq, Eq, Structural)]
pub enum MessageType {
    MsgtypeUndefined,
    /// For future use.
    MsgtypeCommand,
    /// Sent by the robot controller.
    MsgtypeData,
    /// Sent by a sensor for position guidance.
    MsgtypeCorrection,
    /// Sent by a sensor for path correction.
    MsgtypePathCorrection,
}

/// Header of every EGM message.
#[derive(Clone, Copy, Debug, PartialEq, Eq, Structural)]
pub struct EgmHeader {
    /// Sequence number, to be able to find lost messages.
    pub seqno: Option<u32>,
    /// Controller send time stamp in milliseconds.
    pub tm: Option<u32>,
    /// Message type, the code of a [`MessageType`].
    pub mtype: Option<i32>,
}

/// A cartesian position in millimeters.
#[derive(Clone, Copy, Debug, PartialEq, Eq, Structural)]
pub struct EgmCartesian {
    pub x: Double,
    pub y: Double,
    pub z: Double,
}

/// A quaternion, with `u0` the scalar part (w, x, y, z order).
#[derive(Clone, Copy, Debug, PartialEq, Eq, Structural)]
pub struct EgmQuaternion {
    pub u0: Double,
    pub u1: Double,
    pub u2: Double,
    pub u3: Double,
}

/// A rotation as X, Y and Z angles in degrees.
///
/// If a pose carries both Euler angles and a quaternion, the controller gives
/// the Euler angles priority.
#[derive(Clone, Copy, Debug, PartialEq, Eq, Structural)]
pub struct EgmEuler {
    pub x: Double,
    pub y: Double,
    pub z: Double,
}

/// A time point as seconds and microseconds.
#[derive(Clone, Copy, Debug, PartialEq, Eq, Structural)]
pub struct EgmClock {
    pub sec: u64,
    pub usec: u64,
}

/// A 6-DOF pose.
#[derive(Clone, Copy, Debug, PartialEq, Eq, Structural)]
pub struct EgmPose {
    pub pos: Option<EgmCartesian>,
    pub orient: Option<EgmQuaternion>,
    pub euler: Option<EgmEuler>,
}

/// A cartesian speed reference in mm/s, meant to hold exactly x, y and z.
#[derive(Clone, Debug, PartialEq)]
pub struct EgmCartesianSpeed {
    pub value: Vec<Double>,
}

/// Joint values in degrees.
#[derive(Clone, Debug, PartialEq)]
pub struct EgmJoints {
    pub joints: Vec<Double>,
}

/// External joint values in degrees.
#[derive(Clone, Debug, PartialEq)]
pub struct EgmExternalJoints {
    pub joints: Vec<Double>,
}

/// A motion target with its intended execution time.
///
/// Used for position streaming (sent by the controller) and position guidance
/// (sent by a sensor).
#[derive(Clone, Debug, PartialEq)]
pub struct EgmPlanned {
    pub joints: Option<EgmJoints>,
    pub cartesian: Option<EgmPose>,
    pub external_joints: Option<EgmJoints>,
    pub time: Option<EgmClock>,
}

/// Speed references.
#[derive(Clone, Debug, PartialEq)]
pub struct EgmSpeedRef {
    pub joints: Option<EgmJoints>,
    pub cartesians: Option<EgmCartesianSpeed>,
    pub external_joints: Option<EgmJoints>,
}

/// A path correction.
#[derive(Clone, Copy, Debug, PartialEq, Eq, Structural)]
pub struct EgmPathCorr {
    /// Sensor measurement (x, y, z) relative to the sensor tool coordinate system.
    pub pos: EgmCartesian,
    /// Sensor measurement age in milliseconds.
    pub age: u32,
}

/// State reported by the robot.
#[derive(Clone, Debug, PartialEq)]
pub struct EgmFeedBack {
    pub joints: Option<EgmJoints>,
    pub cartesian: Option<EgmPose>,
    pub external_joints: Option<EgmJoints>,
    pub time: Option<EgmClock>,
}

/// State of the motors, as a [`MotorStateType`] code.
#[derive(Clone, Copy, Debug, PartialEq, Eq, Structural)]
pub struct EgmMotorState {
    pub state: i32,
}

/// Motor state.
#[derive(Clone, Copy, Debug, PartialEq, Eq, Structural)]
pub enum MotorStateType {
    MotorsUndefined,
    MotorsOn,
    MotorsOff,
}

/// State of the motion control interface, as a [`MciStateType`] code.
#[derive(Clone, Copy, Debug, PartialEq, Eq, Structural)]
pub struct EgmMciState {
    pub state: i32,
}

/// Motion control interface state.
#[derive(Clone, Copy, Debug, PartialEq, Eq, Structural)]
pub enum MciStateType {
    MciUndefined,
    MciError,
    MciStopped,
    MciRunning,
}

/// Execution state of the RAPID program, as a [`RapidCtrlExecStateType`] code.
#[derive(Clone, Copy, Debug, PartialEq, Eq, Structural)]
pub struct EgmRapidCtrlExecState {
    pub state: i32,
}

/// RAPID execution state.
#[derive(Clone, Copy, Debug, PartialEq, Eq, Structural)]
pub enum RapidCtrlExecStateType {
    RapidUndefined,
    RapidStopped,
    RapidRunning,
}

/// Test signals.
#[derive(Clone, Debug, PartialEq)]
pub struct EgmTestSignals {
    pub signals: Vec<Double>,
}

/// Measured force.
#[derive(Clone, Debug, PartialEq)]
pub struct EgmMeasuredForce {
    pub force: Vec<Double>,
}

/// Message sent by the robot controller to the sensor during position guidance
/// and position streaming.
#[derive(Clone, Debug, PartialEq)]
pub struct EgmRobot {
    pub header: Option<EgmHeader>,
    pub feed_back: Option<EgmFeedBack>,
    pub planned: Option<EgmPlanned>,
    pub motor_state: Option<EgmMotorState>,
    pub mci_state: Option<EgmMciState>,
    pub mci_convergence_met: Option<bool>,
    pub test_signals: Option<EgmTestSignals>,
    pub rapid_exec_state: Option<EgmRapidCtrlExecState>,
    pub measured_force: Option<EgmMeasuredForce>,
    pub utilization_rate: Option<Double>,
}

/// Message sent by a sensor to the robot controller during position guidance.
#[derive(Clone, Debug, PartialEq)]
pub struct EgmSensor {
    pub header: Option<EgmHeader>,
    pub planned: Option<EgmPlanned>,
    pub speed_ref: Option<EgmSpeedRef>,
}

/// Message sent by a sensor to the robot controller during path correction.
#[derive(Clone, Copy, Debug, PartialEq, Eq, Structural)]
pub struct EgmSensorPathCorr {
    pub header: Option<EgmHeader>,
    pub path_corr: Option<EgmPathCorr>,
}

/// The floating-point leaves of a message, in field order.
///
/// An absent optional field contributes no leaf.
pub trait FloatLeaves {
    spec fn float_leaves(&self) -> Seq<Double>;
}

impl FloatLeaves for Double {
    open spec fn float_leaves(&self) -> Seq<Double> {
        seq![*self]
    }
}

impl<T: FloatLeaves> FloatLeaves for Option<T> {
    open spec fn float_leaves(&self) -> Seq<Double> {
        match self {
            Some(x) => x.float_leaves(),
            None => Seq::empty(),
        }
    }
}

impl FloatLeaves for EgmCartesian {
    open spec fn float_leaves(&self) -> Seq<Double> {
        seq![self.x, self.y, self.z]
    }
}

impl FloatLeaves for EgmQuaternion {
    open spec fn float_leaves(&self) -> Seq<Double> {
        seq![self.u0, self.u1, self.u2, self.u3]
    }
}

impl FloatLeaves for EgmEuler {
    open spec fn float_leaves(&self) -> Seq<Double> {
        seq![self.x, self.y, self.z]
    }
}

impl FloatLeaves for EgmPose {
    open spec fn float_leaves(&self) -> Seq<Double> {
        self.pos.float_leaves() + self.orient.float_leaves() + self.euler.float_leaves()
    }
}

impl FloatLeaves for EgmCartesianSpeed {
    open spec fn float_leaves(&self) -> Seq<Double> {
        self.value@
    }
}

impl FloatLeaves for EgmJoints {
    open spec fn float_leaves(&self) -> Seq<Double> {
        self.joints@
    }
}

impl FloatLeaves for EgmExternalJoints {
    open spec fn float_leaves(&self) -> Seq<Double> {
        self.joints@
    }
}

impl FloatLeaves for EgmPlanned {
    open spec fn float_leaves(&self) -> Seq<Double> {
        self.joints.float_leaves() + self.cartesian.float_leaves()
            + self.external_joints.float_leaves()
    }
}

impl FloatLeaves for EgmSpeedRef {
    open spec fn float_leaves(&self) -> Seq<Double> {
        self.joints.float_leaves() + self.cartesians.float_leaves()
            + self.external_joints.float_leaves()
    }
}

impl FloatLeaves for EgmPathCorr {
    open spec fn float_leaves(&self) -> Seq<Double> {
        self.pos.float_leaves()
    }
}

impl FloatLeaves for EgmFeedBack {
    open spec fn float_leaves(&self) -> Seq<Double> {
        self.joints.float_leaves() + self.cartesian.float_leaves()
            + self.external_joints.float_leaves()
    }
}

impl FloatLeaves for EgmTestSignals {
    open spec fn float_leaves(&self) -> Seq<Double> {
        self.signals@
    }
}

impl FloatLeaves for EgmMeasuredForce {
    open spec fn float_leaves(&self) -> Seq<Double> {
        self.force@
    }
}

impl FloatLeaves for EgmRobot {
    open spec fn float_leaves(&self) -> Seq<Double> {
        self.feed_back.float_leaves() + self.planned.float_leaves()
            + self.test_signals.float_leaves() + self.measured_force.float_leaves()
            + self.utilization_rate.float_leaves()
    }
}

impl FloatLeaves for EgmSensor {
    open spec fn float_leaves(&self) -> Seq<Double> {
        self.planned.float_leaves() + self.speed_ref.float_leaves()
    }
}

impl FloatLeaves for EgmSensorPathCorr {
    open spec fn float_leaves(&self) -> Seq<Double> {
        self.path_corr.float_leaves()
    }
}

} // verus!
