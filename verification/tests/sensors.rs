//! Driving the heat-source evaluation machine through whole dialogues.

use fancal::heatsrc::{HeatAction, HeatEvent, HeatPhase};
use fancal::HeatEval;

const SENSOR: &str = "/sys/class/hwmon/hwmon0/temp1_input";
const LABEL: &str = "/sys/class/hwmon/hwmon0/temp1_label";
const RESOLVED: &str = "/sys/devices/platform/nct6775.0/hwmon/hwmon0/temp1_input";

#[test]
fn accepted_sensor_becomes_heat_source() {
    let mut m = HeatEval::new(SENSOR.to_string());
    match m.next_action() {
        HeatAction::ReadValue(p) => {
            assert_eq!(p, SENSOR);
            m.handle(HeatEvent::Content("42500\n".to_string()));
        },
        a => panic!("expected the value read, got {:?}", a),
    }
    // The reading "42500\n" is the value 42.5 degrees Celsius.
    assert_eq!(m.value_milli, 42500);
    assert_eq!(m.value_milli as f32 / 1000.0, 42.5);
    match m.next_action() {
        HeatAction::ReadLabel(p) => {
            assert_eq!(p, LABEL);
            m.handle(HeatEvent::Content("CPUTIN".to_string()));
        },
        a => panic!("expected the label read, got {:?}", a),
    }
    match m.next_action() {
        HeatAction::Resolve(p) => {
            assert_eq!(p, SENSOR);
            m.handle(HeatEvent::Resolved(RESOLVED.to_string()));
        },
        a => panic!("expected the resolution, got {:?}", a),
    }
    match m.next_action() {
        HeatAction::Confirm => m.handle(HeatEvent::Answer(true)),
        a => panic!("expected the confirmation, got {:?}", a),
    }
    match m.next_action() {
        HeatAction::AskName => m.handle(HeatEvent::Text("cpu".to_string())),
        a => panic!("expected the name prompt, got {:?}", a),
    }
    match m.next_action() {
        HeatAction::AskSetPoint => m.handle(HeatEvent::Number(60500)),
        a => panic!("expected the setpoint prompt, got {:?}", a),
    }
    assert!(m.done());
    let h = m.outcome().expect("an accepted sensor yields a heat source");
    assert_eq!(h.name, "cpu");
    assert_eq!(h.wildcard_path, RESOLVED);
    assert_eq!(h.pid_params.set_point, 60500);
    assert_eq!(h.pid_params.p, 0);
    assert_eq!(h.pid_params.i, 0);
    assert_eq!(h.pid_params.d, 0);
}

#[test]
fn unreadable_value_still_reaches_the_user_as_zero() {
    let mut m = HeatEval::new(SENSOR.to_string());
    match m.next_action() {
        HeatAction::ReadValue(_) => m.handle(HeatEvent::Content("garbled\n".to_string())),
        a => panic!("expected the value read, got {:?}", a),
    }
    // Sensor presence matters more than the first reading: parsing
    // failed, the value shows as 0, and the evaluation goes on.
    assert_eq!(m.value_milli, 0);
    assert_eq!(m.phase, HeatPhase::ReadLabel);
}

#[test]
fn missing_label_skips_the_candidate() {
    let mut m = HeatEval::new(SENSOR.to_string());
    match m.next_action() {
        HeatAction::ReadValue(_) => m.handle(HeatEvent::Content("30000\n".to_string())),
        a => panic!("expected the value read, got {:?}", a),
    }
    match m.next_action() {
        HeatAction::ReadLabel(_) => m.handle(HeatEvent::Failed),
        a => panic!("expected the label read, got {:?}", a),
    }
    match m.next_action() {
        HeatAction::Finish => {},
        a => panic!("expected the finish, got {:?}", a),
    }
    assert!(m.done());
    assert!(m.outcome().is_none());
}

#[test]
fn declined_sensor_yields_nothing() {
    let mut m = HeatEval::new(SENSOR.to_string());
    match m.next_action() {
        HeatAction::ReadValue(_) => m.handle(HeatEvent::Content("30000\n".to_string())),
        a => panic!("expected the value read, got {:?}", a),
    }
    match m.next_action() {
        HeatAction::ReadLabel(_) => m.handle(HeatEvent::Content("SYSTIN".to_string())),
        a => panic!("expected the label read, got {:?}", a),
    }
    match m.next_action() {
        HeatAction::Resolve(_) => m.handle(HeatEvent::Resolved(RESOLVED.to_string())),
        a => panic!("expected the resolution, got {:?}", a),
    }
    match m.next_action() {
        HeatAction::Confirm => m.handle(HeatEvent::Answer(false)),
        a => panic!("expected the confirmation, got {:?}", a),
    }
    assert!(m.done());
    assert!(m.outcome().is_none());
}

#[test]
fn broken_confirmation_counts_as_decline() {
    let mut m = HeatEval::new(SENSOR.to_string());
    match m.next_action() {
        HeatAction::ReadValue(_) => m.handle(HeatEvent::Content("30000\n".to_string())),
        a => panic!("expected the value read, got {:?}", a),
    }
    match m.next_action() {
        HeatAction::ReadLabel(_) => m.handle(HeatEvent::Content("SYSTIN".to_string())),
        a => panic!("expected the label read, got {:?}", a),
    }
    match m.next_action() {
        HeatAction::Resolve(_) => m.handle(HeatEvent::Resolved(RESOLVED.to_string())),
        a => panic!("expected the resolution, got {:?}", a),
    }
    match m.next_action() {
        HeatAction::Confirm => m.handle(HeatEvent::Failed),
        a => panic!("expected the confirmation, got {:?}", a),
    }
    assert_eq!(m.phase, HeatPhase::DoneNone);
    assert!(m.outcome().is_none());
}
