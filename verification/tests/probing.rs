//! The path prober and the two discovery runs built on it.

use fancal::heatsrc::heat_src_names;
use fancal::{search_fans, search_heat_srcs, search_paths, HeatSrc, ProbeReq};

#[test]
fn malformed_pattern_does_not_stop_the_walk() {
    // The first pattern is malformed (glob agrees); the prober skips it
    // and still expands the one after it.
    let bad = "a[".to_string();
    assert!(glob::glob(&bad).is_err());
    let mut probe = search_paths(vec![bad, "/sys/class/hwmon/hwmon*/pwm*[0-9]".to_string()]);
    match probe.next_request() {
        ProbeReq::Expand(p) => assert_eq!(p, "a["),
        r => panic!("expected an expansion request, got {:?}", r),
    }
    probe.expand_failed();
    match probe.next_request() {
        ProbeReq::Expand(p) => assert_eq!(p, "/sys/class/hwmon/hwmon*/pwm*[0-9]"),
        r => panic!("expected an expansion request, got {:?}", r),
    }
    probe.expanded(vec!["/sys/class/hwmon/hwmon1/pwm1".to_string()]);
    match probe.next_request() {
        ProbeReq::Eval(p) => assert_eq!(p, "/sys/class/hwmon/hwmon1/pwm1"),
        r => panic!("expected an evaluation request, got {:?}", r),
    }
    probe.candidate_done();
    match probe.next_request() {
        ProbeReq::Done => {},
        r => panic!("expected the end of the walk, got {:?}", r),
    }
}

#[test]
fn candidates_are_walked_in_enumeration_order() {
    let mut probe = search_paths(vec!["one".to_string(), "two".to_string()]);
    match probe.next_request() {
        ProbeReq::Expand(p) => assert_eq!(p, "one"),
        r => panic!("expected an expansion request, got {:?}", r),
    }
    probe.expanded(vec!["a".to_string(), "b".to_string()]);
    for expected in ["a", "b"] {
        match probe.next_request() {
            ProbeReq::Eval(p) => assert_eq!(p, expected),
            r => panic!("expected an evaluation request, got {:?}", r),
        }
        probe.candidate_done();
    }
    match probe.next_request() {
        ProbeReq::Expand(p) => assert_eq!(p, "two"),
        r => panic!("expected an expansion request, got {:?}", r),
    }
    probe.expanded(vec![]);
    match probe.next_request() {
        ProbeReq::Done => {},
        r => panic!("expected the end of the walk, got {:?}", r),
    }
}

#[test]
fn heat_source_run_starts_on_the_sensor_pattern() {
    let mut search = search_heat_srcs();
    match search.probe.next_request() {
        ProbeReq::Expand(p) => assert_eq!(p, "/sys/class/hwmon/hwmon*/temp*_input"),
        r => panic!("expected an expansion request, got {:?}", r),
    }
    search.probe.expanded(vec!["/sys/class/hwmon/hwmon0/temp1_input".to_string()]);
    // A declined candidate leaves the list alone; an accepted one is
    // appended in order.
    search.record(None);
    assert_eq!(search.heat_srcs.len(), 0);
    search.record(Some(HeatSrc::new(
        "cpu".to_string(),
        "/sys/class/hwmon/hwmon0/temp1_input".to_string(),
        60000,
    )));
    assert_eq!(search.heat_srcs.len(), 1);
    assert_eq!(heat_src_names(&search.heat_srcs), vec!["cpu".to_string()]);
}

#[test]
fn fan_run_starts_on_the_pwm_pattern() {
    let search = search_fans(vec!["cpu".to_string()]);
    match search.probe.next_request() {
        ProbeReq::Expand(p) => assert_eq!(p, "/sys/class/hwmon/hwmon*/pwm*[0-9]"),
        r => panic!("expected an expansion request, got {:?}", r),
    }
    assert_eq!(search.heat_src_names, vec!["cpu".to_string()]);
    assert_eq!(search.fans.len(), 0);
}
