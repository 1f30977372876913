//! The shared instrument-facing types: wire values, range checks and
//! motor-movement planning.

use nanonis_rs::client::bias_spectr::SweepMode;
use nanonis_rs::chunk_rows;
use nanonis_rs::types::{
    ChannelIndex, MotorDirection, MotorDisplacement, MotorGroup, OversamplingIndex, ScanAction,
    TriggerMode, ZControllerStatus,
};

#[test]
fn channel_index_checks_its_range() {
    assert_eq!(ChannelIndex::new(0).unwrap().get(), 0);
    assert_eq!(ChannelIndex::new(23).unwrap().get(), 23);
    assert!(ChannelIndex::new(24).is_err());
    assert_eq!(ChannelIndex::new_unchecked(99).get(), 99);
}

#[test]
fn selector_wire_values_round_trip() {
    for v in 0..6u32 {
        assert_eq!(MotorDirection::from_u32(v).unwrap().as_u32(), v);
    }
    assert!(MotorDirection::from_u32(6).is_err());
    for v in 0..7u16 {
        assert_eq!(ScanAction::from_u16(v).unwrap().as_u16(), v);
    }
    assert!(ScanAction::from_u16(7).is_err());
    for v in 0..6u16 {
        assert_eq!(OversamplingIndex::from_u16(v).unwrap().as_u16(), v);
    }
    // the controller status table starts at one
    assert!(ZControllerStatus::from_u16(0).is_err());
    assert_eq!(ZControllerStatus::from_u16(1).unwrap(), ZControllerStatus::Off);
    assert_eq!(ZControllerStatus::from_u16(6).unwrap().as_u16(), 6);
}

#[test]
fn trigger_mode_falls_back_on_unknown_values() {
    assert_eq!(TriggerMode::from_u16(2), TriggerMode::Digital);
    assert_eq!(TriggerMode::from_u16(99), TriggerMode::Immediate);
}

#[test]
fn motor_movements_follow_the_safe_order() {
    // retract first, then the lateral axes, then approach last
    let d = MotorDisplacement::new(-3, 4, 5);
    let moves = d.to_motor_movements();
    assert_eq!(
        moves,
        vec![
            (MotorDirection::XMinus, 3),
            (MotorDirection::YPlus, 4),
            (MotorDirection::ZPlus, 5),
        ]
    );

    let d = MotorDisplacement::new(2, -1, -6);
    let moves = d.to_motor_movements();
    assert_eq!(
        moves,
        vec![
            (MotorDirection::ZMinus, 6),
            (MotorDirection::XPlus, 2),
            (MotorDirection::YMinus, 1),
        ]
    );

    assert!(MotorDisplacement::new(0, 0, 0).is_zero());
    assert_eq!(MotorDisplacement::new(0, 0, 0).to_motor_movements(), vec![]);

    // the most negative step count still retracts by its magnitude
    let d = MotorDisplacement::new(0, 0, i16::MIN);
    assert_eq!(d.to_motor_movements(), vec![(MotorDirection::ZMinus, 32768)]);
}

#[test]
fn motor_group_wire_values() {
    assert_eq!(MotorGroup::Group1.as_u32(), 0);
    assert_eq!(MotorGroup::Group6.as_u32(), 5);
}

#[test]
fn sweep_mode_names_parse_case_insensitively() {
    for s in ["Linear", "linear", "LINEAR", "LiNeAr"] {
        assert_eq!(SweepMode::parse(s).unwrap(), SweepMode::Linear);
    }
    for s in ["MLS", "mls", "Mls"] {
        assert_eq!(SweepMode::parse(s).unwrap(), SweepMode::MLS);
    }
    assert!(SweepMode::parse("ramp").is_err());
    assert!(SweepMode::parse("").is_err());
}

#[test]
fn chunk_rows_regroups_row_major_data() {
    let flat: Vec<u32> = vec![1, 2, 3, 4, 5, 6];
    let m = chunk_rows(&flat, 2, 3);
    assert_eq!(m, vec![vec![1, 2, 3], vec![4, 5, 6]]);
    let empty = chunk_rows(&vec![], 0, 5);
    assert_eq!(empty.len(), 0);
}
