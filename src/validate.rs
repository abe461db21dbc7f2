//! Detection of NaN values in messages.
//!
//! A NaN sent to motion-control hardware is a hazard, so every message is
//! checked before it is sent. Each `has_nan` is true exactly when one of the
//! message's floating-point leaves ([`FloatLeaves`]) is NaN.
use vstd::prelude::*;

use crate::double::{
    any_nan, lemma_any_nan_concat, lemma_any_nan_four, lemma_any_nan_three, slice_has_nan, Double,
};
use crate::msg::{
    EgmCartesian, EgmCartesianSpeed, EgmEuler, EgmExternalJoints, EgmFeedBack, EgmJoints,
    EgmMeasuredForce, EgmPathCorr, EgmPlanned, EgmPose, EgmQuaternion, EgmRobot, EgmSensor,
    EgmSensorPathCorr, EgmSpeedRef, EgmTestSignals, FloatLeaves,
};

verus! {

impl EgmCartesian {
    /// Check if any of the values are NaN.
    pub fn has_nan(&self) -> (r: bool)
        ensures
            r == any_nan(self.float_leaves()),
    {
        proof {
            lemma_any_nan_three(self.x, self.y, self.z);
        }
        self.x.is_nan() || self.y.is_nan() || self.z.is_nan()
    }
}

impl EgmQuaternion {
    /// Check if any of the values are NaN.
    pub fn has_nan(&self) -> (r: bool)
        ensures
            r == any_nan(self.float_leaves()),
    {
        proof {
            lemma_any_nan_four(self.u0, self.u1, self.u2, self.u3);
        }
        self.u0.is_nan() || self.u1.is_nan() || self.u2.is_nan() || self.u3.is_nan()
    }
}

impl EgmEuler {
    /// Check if any of the values are NaN.
    pub fn has_nan(&self) -> (r: bool)
        ensures
            r == any_nan(self.float_leaves()),
    {
        proof {
            lemma_any_nan_three(self.x, self.y, self.z);
        }
        self.x.is_nan() || self.y.is_nan() || self.z.is_nan()
    }
}

impl EgmPose {
    /// Check if any of the values are NaN.
    pub fn has_nan(&self) -> (r: bool)
        ensures
            r == any_nan(self.float_leaves()),
    {
        let pos = match &self.pos {
            Some(x) => x.has_nan(),
            None => false,
        };
        let orient = match &self.orient {
            Some(x) => x.has_nan(),
            None => false,
        };
        let euler = match &self.euler {
            Some(x) => x.has_nan(),
            None => false,
        };
        proof {
            lemma_any_nan_concat(self.pos.float_leaves(), self.orient.float_leaves());
            lemma_any_nan_concat(
                self.pos.float_leaves() + self.orient.float_leaves(),
                self.euler.float_leaves(),
            );
        }
        pos || orient || euler
    }
}

impl EgmCartesianSpeed {
    /// Check if any of the values are NaN.
    pub fn has_nan(&self) -> (r: bool)
        ensures
            r == any_nan(self.float_leaves()),
    {
        slice_has_nan(self.value.as_slice())
    }
}

impl EgmJoints {
    /// Check if any of the values are NaN.
    pub fn has_nan(&self) -> (r: bool)
        ensures
            r == any_nan(self.float_leaves()),
    {
        slice_has_nan(self.joints.as_slice())
    }
}

impl EgmExternalJoints {
    /// Check if any of the values are NaN.
    pub fn has_nan(&self) -> (r: bool)
        ensures
            r == any_nan(self.float_leaves()),
    {
        slice_has_nan(self.joints.as_slice())
    }
}

impl EgmTestSignals {
    /// Check if any of the values are NaN.
    pub fn has_nan(&self) -> (r: bool)
        ensures
            r == any_nan(self.float_leaves()),
    {
        slice_has_nan(self.signals.as_slice())
    }
}

impl EgmMeasuredForce {
    /// Check if any of the values are NaN.
    pub fn has_nan(&self) -> (r: bool)
        ensures
            r == any_nan(self.float_leaves()),
    {
        slice_has_nan(self.force.as_slice())
    }
}

/// Check if an optional joint list holds a NaN.
fn joints_have_nan(joints: &Option<EgmJoints>) -> (r: bool)
    ensures
        r == any_nan(joints.float_leaves()),
{
    match joints {
        Some(x) => x.has_nan(),
        None => false,
    }
}

impl EgmPlanned {
    /// Check if any of the values are NaN.
    pub fn has_nan(&self) -> (r: bool)
        ensures
            r == any_nan(self.float_leaves()),
    {
        let joints = joints_have_nan(&self.joints);
        let cartesian = match &self.cartesian {
            Some(x) => x.has_nan(),
            None => false,
        };
        let external = joints_have_nan(&self.external_joints);
        proof {
            lemma_any_nan_concat(self.joints.float_leaves(), self.cartesian.float_leaves());
            lemma_any_nan_concat(
                self.joints.float_leaves() + self.cartesian.float_leaves(),
                self.external_joints.float_leaves(),
            );
        }
        joints || cartesian || external
    }
}

impl EgmSpeedRef {
    /// Check if any of the values are NaN.
    pub fn has_nan(&self) -> (r: bool)
        ensures
            r == any_nan(self.float_leaves()),
    {
        let joints = joints_have_nan(&self.joints);
        let cartesians = match &self.cartesians {
            Some(x) => x.has_nan(),
            None => false,
        };
        let external = joints_have_nan(&self.external_joints);
        proof {
            lemma_any_nan_concat(self.joints.float_leaves(), self.cartesians.float_leaves());
            lemma_any_nan_concat(
                self.joints.float_leaves() + self.cartesians.float_leaves(),
                self.external_joints.float_leaves(),
            );
        }
        joints || cartesians || external
    }
}

impl EgmPathCorr {
    /// Check if any of the values are NaN.
    pub fn has_nan(&self) -> (r: bool)
        ensures
            r == any_nan(self.float_leaves()),
    {
        self.pos.has_nan()
    }
}

impl EgmFeedBack {
    /// Check if any of the values are NaN.
    pub fn has_nan(&self) -> (r: bool)
        ensures
            r == any_nan(self.float_leaves()),
    {
        let joints = joints_have_nan(&self.joints);
        let cartesian = match &self.cartesian {
            Some(x) => x.has_nan(),
            None => false,
        };
        let external = joints_have_nan(&self.external_joints);
        proof {
            lemma_any_nan_concat(self.joints.float_leaves(), self.cartesian.float_leaves());
            lemma_any_nan_concat(
                self.joints.float_leaves() + self.cartesian.float_leaves(),
                self.external_joints.float_leaves(),
            );
        }
        joints || cartesian || external
    }
}

impl EgmSensor {
    /// Check if any of the values are NaN.
    pub fn has_nan(&self) -> (r: bool)
        ensures
            r == any_nan(self.float_leaves()),
    {
        let planned = match &self.planned {
            Some(x) => x.has_nan(),
            None => false,
        };
        let speed_ref = match &self.speed_ref {
            Some(x) => x.has_nan(),
            None => false,
        };
        proof {
            lemma_any_nan_concat(self.planned.float_leaves(), self.speed_ref.float_leaves());
        }
        planned || speed_ref
    }
}

impl EgmSensorPathCorr {
    /// Check if any of the values are NaN.
    pub fn has_nan(&self) -> (r: bool)
        ensures
            r == any_nan(self.float_leaves()),
    {
        match &self.path_corr {
            Some(x) => x.has_nan(),
            None => false,
        }
    }
}

impl EgmRobot {
    /// Check if any of the values are NaN.
    pub fn has_nan(&self) -> (r: bool)
        ensures
            r == any_nan(self.float_leaves()),
    {
        let feed_back = match &self.feed_back {
            Some(x) => x.has_nan(),
            None => false,
        };
        let planned = match &self.planned {
            Some(x) => x.has_nan(),
            None => false,
        };
        let test_signals = match &self.test_signals {
            Some(x) => x.has_nan(),
            None => false,
        };
        let measured_force = match &self.measured_force {
            Some(x) => x.has_nan(),
            None => false,
        };
        let utilization_rate = match &self.utilization_rate {
            Some(x) => x.is_nan(),
            None => false,
        };
        proof {
            let a = self.feed_back.float_leaves();
            let b = self.planned.float_leaves();
            let c = self.test_signals.float_leaves();
            let d = self.measured_force.float_leaves();
            let e = self.utilization_rate.float_leaves();
            lemma_any_nan_concat(a, b);
            lemma_any_nan_concat(a + b, c);
            lemma_any_nan_concat(a + b + c, d);
            lemma_any_nan_concat(a + b + c + d, e);
            if let Some(u) = self.utilization_rate {
                assert(e[0] == u);
            }
        }
        feed_back || planned || test_signals || measured_force || utilization_rate
    }
}

} // verus!
