//! Accessors of the state that the robot reports in an [`EgmRobot`] message.
//!
//! Each accessor reads through several optional levels and is `None` as soon
//! as one of them is absent.
use vstd::prelude::*;

use crate::builders::{motor_state_of_code, rapid_state_of_code};
use crate::double::Double;
use crate::msg::{
    EgmClock, EgmJoints, EgmPose, EgmRobot, MotorStateType,
    RapidCtrlExecStateType,
};

verus! {

/// What an optional borrowed list holds.
pub open spec fn list_of(o: Option<&Vec<Double>>) -> Option<Seq<Double>> {
    match o {
        Some(v) => Some(v@),
        None => None,
    }
}

/// The pose that an optional borrowed pose refers to.
pub open spec fn pose_of(o: Option<&EgmPose>) -> Option<EgmPose> {
    match o {
        Some(p) => Some(*p),
        None => None,
    }
}

/// The values of an optional joint list.
pub open spec fn joints_of(j: Option<EgmJoints>) -> Option<Seq<Double>> {
    match j {
        Some(j) => Some(j.joints@),
        None => None,
    }
}

/// Borrow the joint values of an optional joint list.
fn joint_values(j: &Option<EgmJoints>) -> (r: Option<&Vec<Double>>)
    ensures
        list_of(r) == joints_of(*j),
{
    match j {
        Some(j) => Some(&j.joints),
        None => None,
    }
}

impl EgmRobot {
    /// The sequence number of the message.
    pub fn sequence_number(&self) -> (r: Option<u32>)
        ensures
            r == (match self.header {
                Some(h) => h.seqno,
                None => None,
            }),
    {
        match &self.header {
            Some(h) => h.seqno,
            None => None,
        }
    }

    /// The controller send time stamp of the message in milliseconds.
    pub fn timestamp_ms(&self) -> (r: Option<u32>)
        ensures
            r == (match self.header {
                Some(h) => h.tm,
                None => None,
            }),
    {
        match &self.header {
            Some(h) => h.tm,
            None => None,
        }
    }

    /// The joint values that the robot reports.
    pub fn feedback_joints(&self) -> (r: Option<&Vec<Double>>)
        ensures
            list_of(r) == (match self.feed_back {
                Some(f) => joints_of(f.joints),
                None => None,
            }),
    {
        match &self.feed_back {
            Some(f) => joint_values(&f.joints),
            None => None,
        }
    }

    /// The pose that the robot reports.
    pub fn feedback_pose(&self) -> (r: Option<&EgmPose>)
        ensures
            pose_of(r) == (match self.feed_back {
                Some(f) => f.cartesian,
                None => None,
            }),
    {
        match &self.feed_back {
            Some(f) => match &f.cartesian {
                Some(p) => Some(p),
                None => None,
            },
            None => None,
        }
    }

    /// The external joint values that the robot reports.
    pub fn feedback_extenal_joints(&self) -> (r: Option<&Vec<Double>>)
        ensures
            list_of(r) == (match self.feed_back {
                Some(f) => joints_of(f.external_joints),
                None => None,
            }),
    {
        match &self.feed_back {
            Some(f) => joint_values(&f.external_joints),
            None => None,
        }
    }

    /// The time of the feedback.
    pub fn feedback_time(&self) -> (r: Option<EgmClock>)
        ensures
            r == (match self.feed_back {
                Some(f) => f.time,
                None => None,
            }),
    {
        match &self.feed_back {
            Some(f) => f.time,
            None => None,
        }
    }

    /// The planned joint values.
    pub fn planned_joints(&self) -> (r: Option<&Vec<Double>>)
        ensures
            list_of(r) == (match self.planned {
                Some(p) => joints_of(p.joints),
                None => None,
            }),
    {
        match &self.planned {
            Some(p) => joint_values(&p.joints),
            None => None,
        }
    }

    /// The planned pose.
    pub fn planned_pose(&self) -> (r: Option<&EgmPose>)
        ensures
            pose_of(r) == (match self.planned {
                Some(p) => p.cartesian,
                None => None,
            }),
    {
        match &self.planned {
            Some(p) => match &p.cartesian {
                Some(c) => Some(c),
                None => None,
            },
            None => None,
        }
    }

    /// The planned external joint values.
    pub fn planned_extenal_joints(&self) -> (r: Option<&Vec<Double>>)
        ensures
            list_of(r) == (match self.planned {
                Some(p) => joints_of(p.external_joints),
                None => None,
            }),
    {
        match &self.planned {
            Some(p) => joint_values(&p.external_joints),
            None => None,
        }
    }

    /// The time of the planned target.
    pub fn planned_time(&self) -> (r: Option<EgmClock>)
        ensures
            r == (match self.planned {
                Some(p) => p.time,
                None => None,
            }),
    {
        match &self.planned {
            Some(p) => p.time,
            None => None,
        }
    }

    /// Whether the motors are on; `None` when the state is absent or undefined.
    pub fn motors_enabled(&self) -> (r: Option<bool>)
        ensures
            r == (match self.motor_state {
                Some(s) => match motor_state_of_code(s.state) {
                    MotorStateType::MotorsUndefined => None,
                    MotorStateType::MotorsOn => Some(true),
                    MotorStateType::MotorsOff => Some(false),
                },
                None => None,
            }),
    {
        match &self.motor_state {
            Some(s) => match s.state() {
                MotorStateType::MotorsUndefined => None,
                MotorStateType::MotorsOn => Some(true),
                MotorStateType::MotorsOff => Some(false),
            },
            None => None,
        }
    }

    /// Whether the RAPID program is running; `None` when the state is absent or
    /// undefined.
    pub fn rapid_running(&self) -> (r: Option<bool>)
        ensures
            r == (match self.rapid_exec_state {
                Some(s) => match rapid_state_of_code(s.state) {
                    RapidCtrlExecStateType::RapidUndefined => None,
                    RapidCtrlExecStateType::RapidRunning => Some(true),
                    RapidCtrlExecStateType::RapidStopped => Some(false),
                },
                None => None,
            }),
    {
        match &self.rapid_exec_state {
            Some(s) => match s.state() {
                RapidCtrlExecStateType::RapidUndefined => None,
                RapidCtrlExecStateType::RapidRunning => Some(true),
                RapidCtrlExecStateType::RapidStopped => Some(false),
            },
            None => None,
        }
    }

    /// The test signals.
    pub fn test_signals(&self) -> (r: Option<&Vec<Double>>)
        ensures
            list_of(r) == (match self.test_signals {
                Some(t) => Some(t.signals@),
                None => None,
            }),
    {
        match &self.test_signals {
            Some(t) => Some(&t.signals),
            None => None,
        }
    }

    /// The measured force.
    pub fn measured_force(&self) -> (r: Option<&Vec<Double>>)
        ensures
            list_of(r) == (match self.measured_force {
                Some(f) => Some(f.force@),
                None => None,
            }),
    {
        match &self.measured_force {
            Some(f) => Some(&f.force),
            None => None,
        }
    }
}

} // verus!
