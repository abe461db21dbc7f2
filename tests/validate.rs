use abbegm::msg::{
    EgmCartesian, EgmCartesianSpeed, EgmClock, EgmEuler, EgmExternalJoints, EgmFeedBack,
    EgmJoints, EgmMeasuredForce, EgmPathCorr, EgmPlanned, EgmPose, EgmQuaternion, EgmRobot,
    EgmSensor, EgmSensorPathCorr, EgmSpeedRef, EgmTestSignals,
};
use abbegm::Double;

fn d(x: f64) -> Double {
    Double::from_bits(x.to_bits())
}

fn robot() -> EgmRobot {
    EgmRobot {
        header: None,
        feed_back: None,
        planned: None,
        motor_state: None,
        mci_state: None,
        mci_convergence_met: None,
        test_signals: None,
        rapid_exec_state: None,
        measured_force: None,
        utilization_rate: None,
    }
}

#[test]
fn double_is_nan_follows_ieee() {
    assert!(d(f64::NAN).is_nan());
    assert!(Double::from_bits(0x7ff0_0000_0000_0001).is_nan());
    assert!(Double::from_bits(0xfff8_0000_0000_0000).is_nan());
    assert!(!d(f64::INFINITY).is_nan());
    assert!(!d(f64::NEG_INFINITY).is_nan());
    assert!(!d(0.0).is_nan());
    assert!(!d(-1.5).is_nan());
    assert!(!d(f64::MAX).is_nan());
    assert_eq!(d(2.5).to_bits(), 2.5f64.to_bits());
}

#[test]
fn cartesian_nan_in_any_component() {
    assert!(!EgmCartesian::from_mm(d(1.0), d(2.0), d(3.0)).has_nan());
    assert!(EgmCartesian::from_mm(d(f64::NAN), d(2.0), d(3.0)).has_nan());
    assert!(EgmCartesian::from_mm(d(1.0), d(f64::NAN), d(3.0)).has_nan());
    assert!(EgmCartesian::from_mm(d(1.0), d(2.0), d(f64::NAN)).has_nan());
}

#[test]
fn quaternion_and_euler_nan() {
    assert!(!EgmQuaternion::from_wxyz(d(1.0), d(0.0), d(0.0), d(0.0)).has_nan());
    assert!(EgmQuaternion::from_wxyz(d(1.0), d(0.0), d(0.0), d(f64::NAN)).has_nan());
    assert!(!EgmEuler::from_xyz_degrees(d(90.0), d(0.0), d(0.0)).has_nan());
    assert!(EgmEuler::from_xyz_degrees(d(90.0), d(f64::NAN), d(0.0)).has_nan());
}

#[test]
fn pose_nan_reaches_every_part() {
    let pos = EgmCartesian::from_mm(d(1.0), d(2.0), d(3.0));
    let orient = EgmQuaternion::from_wxyz(d(1.0), d(0.0), d(0.0), d(0.0));
    let mut pose = EgmPose::new(pos, orient);
    assert!(!pose.has_nan());
    pose.euler = Some(EgmEuler::from_xyz_degrees(d(0.0), d(0.0), d(f64::NAN)));
    assert!(pose.has_nan());
    let empty = EgmPose { pos: None, orient: None, euler: None };
    assert!(!empty.has_nan());
    let nan_orient = EgmPose { pos: None, orient: Some(EgmQuaternion::from_wxyz(d(f64::NAN), d(0.0), d(0.0), d(0.0))), euler: None };
    assert!(nan_orient.has_nan());
}

#[test]
fn lists_nan() {
    assert!(!EgmJoints::from_degrees(vec![]).has_nan());
    assert!(!EgmJoints::from_degrees(vec![d(1.0), d(2.0)]).has_nan());
    assert!(EgmJoints::from_degrees(vec![d(1.0), d(f64::NAN)]).has_nan());
    assert!(EgmExternalJoints::from_degrees(vec![d(f64::NAN)]).has_nan());
    assert!(EgmCartesianSpeed::from_xyz_mm(d(0.0), d(f64::NAN), d(0.0)).has_nan());
    assert!(!EgmCartesianSpeed::from_xyz_mm(d(0.0), d(1.0), d(0.0)).has_nan());
    assert!(EgmMeasuredForce { force: vec![d(0.0), d(f64::NAN)] }.has_nan());
    assert!(EgmTestSignals { signals: vec![d(f64::NAN)] }.has_nan());
}

#[test]
fn sensor_nan_in_speed_ref() {
    let speed = EgmCartesianSpeed::from_xyz_mm(d(f64::NAN), d(0.0), d(0.0));
    let pose = EgmPose::new(
        EgmCartesian::from_mm(d(1.0), d(2.0), d(3.0)),
        EgmQuaternion::from_wxyz(d(1.0), d(0.0), d(0.0), d(0.0)),
    );
    let msg = EgmSensor::pose_target_with_speed(1, pose, speed, EgmClock::new(0, 0));
    assert!(msg.has_nan());
    assert!(!msg.planned.as_ref().unwrap().has_nan());
    assert!(msg.speed_ref.as_ref().unwrap().has_nan());
}

#[test]
fn sensor_nan_in_external_joints() {
    let planned = EgmPlanned {
        joints: None,
        cartesian: None,
        external_joints: Some(EgmJoints::from_degrees(vec![d(f64::NAN)])),
        time: None,
    };
    let msg = EgmSensor { header: None, planned: Some(planned), speed_ref: None };
    assert!(msg.has_nan());
    let speed_ref = EgmSpeedRef { joints: None, cartesians: None, external_joints: Some(EgmJoints::from_degrees(vec![d(f64::NAN)])) };
    assert!(speed_ref.has_nan());
}

#[test]
fn path_correction_nan() {
    let ok = EgmSensorPathCorr::new(1, 2, EgmCartesian::from_mm(d(1.0), d(2.0), d(3.0)), 4);
    assert!(!ok.has_nan());
    let bad = EgmSensorPathCorr::new(1, 2, EgmCartesian::from_mm(d(1.0), d(f64::NAN), d(3.0)), 4);
    assert!(bad.has_nan());
    assert!(EgmPathCorr::new(EgmCartesian::from_mm(d(f64::NAN), d(0.0), d(0.0)), 1).has_nan());
    assert!(!EgmSensorPathCorr { header: None, path_corr: None }.has_nan());
}

#[test]
fn robot_nan_in_every_reachable_leaf() {
    assert!(!robot().has_nan());

    let mut m = robot();
    m.utilization_rate = Some(d(f64::NAN));
    assert!(m.has_nan());

    let mut m = robot();
    m.utilization_rate = Some(d(0.5));
    assert!(!m.has_nan());

    let mut m = robot();
    m.measured_force = Some(EgmMeasuredForce { force: vec![d(f64::NAN)] });
    assert!(m.has_nan());

    let mut m = robot();
    m.test_signals = Some(EgmTestSignals { signals: vec![d(1.0), d(f64::NAN)] });
    assert!(m.has_nan());

    let mut m = robot();
    m.feed_back = Some(EgmFeedBack {
        joints: None,
        cartesian: Some(EgmPose { pos: Some(EgmCartesian::from_mm(d(0.0), d(0.0), d(f64::NAN))), orient: None, euler: None }),
        external_joints: None,
        time: Some(EgmClock::new(1, 2)),
    });
    assert!(m.has_nan());
    assert!(m.feed_back.as_ref().unwrap().has_nan());

    let mut m = robot();
    m.planned = Some(EgmPlanned::joints(EgmJoints::from_degrees(vec![d(f64::NAN)]), EgmClock::new(0, 0)));
    assert!(m.has_nan());
}
