//! Driving the fan calibration machine through whole dialogues.

use fancal::calib::{Action, Event, FanCalib, Note, Outcome, Topic};
use fancal::search_fans;

const CTRL: &str = "/sys/class/hwmon/hwmon3/pwm1";
const ENABLE: &str = "/sys/class/hwmon/hwmon3/pwm1_enable";
const TACH: &str = "/sys/class/hwmon/hwmon3/fan1_input";

fn expect_write(m: &mut FanCalib, path: &str, contents: &str) {
    match m.next_action() {
        Action::WriteFile(p, c) => {
            assert_eq!(p, path);
            assert_eq!(c, contents);
            m.handle(Event::Done);
        },
        a => panic!("expected a write, got {:?}", a),
    }
}

fn expect_sleep(m: &mut FanCalib, ms: u64) {
    match m.next_action() {
        Action::SleepMs(got) => {
            assert_eq!(got, ms);
            m.handle(Event::Done);
        },
        a => panic!("expected a sleep, got {:?}", a),
    }
}

fn expect_read(m: &mut FanCalib, path: &str, reply: &str) {
    match m.next_action() {
        Action::ReadFile(p) => {
            assert_eq!(p, path);
            m.handle(Event::Content(reply.to_string()));
        },
        a => panic!("expected a read, got {:?}", a),
    }
}

fn expect_confirm(m: &mut FanCalib, topic: Topic, answer: bool) {
    match m.next_action() {
        Action::AskConfirm(t) => {
            assert_eq!(t, topic);
            m.handle(Event::Answer(answer));
        },
        a => panic!("expected a confirmation, got {:?}", a),
    }
}

fn expect_notify(m: &mut FanCalib, note: Note) {
    match m.next_action() {
        Action::Notify(n) => {
            assert_eq!(n, note);
            m.handle(Event::Done);
        },
        a => panic!("expected a notification, got {:?}", a),
    }
}

/// Runs the machine up to and including the spin check with the given
/// RPM reading.
fn drive_to_spin_check(m: &mut FanCalib, rpm: &str) {
    expect_write(m, ENABLE, "1");
    expect_write(m, CTRL, "255");
    expect_sleep(m, 3000);
    expect_read(m, TACH, rpm);
}

/// Runs a spinning fan through identification, acceptance, naming and
/// source selection.
fn drive_to_min_search(m: &mut FanCalib, name: &str, selection: Vec<usize>) {
    drive_to_spin_check(m, "1200\n");
    match m.next_action() {
        Action::StartIdentify(low, high, half_ms) => {
            assert_eq!(low, 0);
            assert_eq!(high, 255);
            assert_eq!(half_ms, 10000);
            m.handle(Event::Done);
        },
        a => panic!("expected the identification start, got {:?}", a),
    }
    expect_confirm(m, Topic::KeepFan, true);
    match m.next_action() {
        Action::StopIdentify => m.handle(Event::Done),
        a => panic!("expected the identification stop, got {:?}", a),
    }
    match m.next_action() {
        Action::AskText => m.handle(Event::Text(name.to_string())),
        a => panic!("expected the name prompt, got {:?}", a),
    }
    match m.next_action() {
        Action::AskChoices(_) => m.handle(Event::Choices(selection)),
        a => panic!("expected the source selection, got {:?}", a),
    }
}

fn finish(m: &mut FanCalib) -> Outcome {
    expect_write(m, ENABLE, "0");
    match m.next_action() {
        Action::Finish => {},
        a => panic!("expected the finish, got {:?}", a),
    }
    assert!(m.done());
    m.outcome()
}

#[test]
fn spinning_fan_declined_restores_automatic_control() {
    let mut m = FanCalib::new(CTRL.to_string(), vec!["cpu".to_string()]);
    drive_to_spin_check(&mut m, "1200\n");
    match m.next_action() {
        Action::StartIdentify(..) => m.handle(Event::Done),
        a => panic!("expected the identification start, got {:?}", a),
    }
    expect_confirm(&mut m, Topic::KeepFan, false);
    match m.next_action() {
        Action::StopIdentify => m.handle(Event::Done),
        a => panic!("expected the identification stop, got {:?}", a),
    }
    match finish(&mut m) {
        Outcome::Rejected => {},
        o => panic!("expected a rejection, got {:?}", o),
    }
}

#[test]
fn zero_rpm_rejects_candidate_and_restores_once() {
    let mut search = search_fans(vec!["cpu".to_string()]);
    let mut m = search.calibrator(CTRL.to_string());
    drive_to_spin_check(&mut m, "0\n");
    // The only remaining action before the end is the single write that
    // restores automatic control.
    let outcome = finish(&mut m);
    match &outcome {
        Outcome::Rejected => {},
        o => panic!("expected a rejection, got {:?}", o),
    }
    search.record(outcome);
    assert_eq!(search.fans.len(), 0);
}

#[test]
fn min_search_never_stops_yields_zero_with_warning() {
    let mut m = FanCalib::new(CTRL.to_string(), vec!["cpu".to_string()]);
    drive_to_min_search(&mut m, "case fan", vec![0]);
    expect_write(&mut m, CTRL, "0");
    // The fan keeps reporting RPM through all 30 polls of the stop
    // wait.
    for _ in 0..30 {
        expect_sleep(&mut m, 1000);
        expect_read(&mut m, TACH, "900\n");
    }
    expect_notify(&mut m, Note::NeverStops);
    // The maximum search starts right away; accept full speed.
    expect_write(&mut m, CTRL, "255");
    expect_confirm(&mut m, Topic::MaxOk, true);
    expect_confirm(&mut m, Topic::Cutoff, false);
    match finish(&mut m) {
        Outcome::Accepted(f) => {
            assert_eq!(f.min_pwm, 0);
            assert_eq!(f.max_pwm, 255);
            assert!(!f.cutoff);
        },
        o => panic!("expected an accepted fan, got {:?}", o),
    }
}

#[test]
fn min_search_finds_first_duty_that_spins() {
    let mut m = FanCalib::new(CTRL.to_string(), vec!["cpu".to_string()]);
    drive_to_min_search(&mut m, "case fan", vec![0]);
    expect_write(&mut m, CTRL, "0");
    expect_sleep(&mut m, 1000);
    expect_read(&mut m, TACH, "0\n");
    // The fan stood still; it resumes spinning only at duty 40.
    for cand in 1..=40u32 {
        expect_write(&mut m, CTRL, &cand.to_string());
        expect_sleep(&mut m, 500);
        expect_read(&mut m, TACH, if cand < 40 { "0\n" } else { "800\n" });
    }
    expect_write(&mut m, CTRL, "255");
    expect_confirm(&mut m, Topic::MaxOk, true);
    expect_confirm(&mut m, Topic::Cutoff, true);
    match finish(&mut m) {
        Outcome::Accepted(f) => {
            assert_eq!(f.min_pwm, 40);
            assert_eq!(f.max_pwm, 255);
            assert!(f.cutoff);
        },
        o => panic!("expected an accepted fan, got {:?}", o),
    }
}

#[test]
fn max_search_steps_down_by_five() {
    let mut m = FanCalib::new(CTRL.to_string(), vec!["cpu".to_string()]);
    drive_to_min_search(&mut m, "case fan", vec![0]);
    // A quick minimum: the fan stops at zero duty and spins at 1.
    expect_write(&mut m, CTRL, "0");
    expect_sleep(&mut m, 1000);
    expect_read(&mut m, TACH, "0\n");
    expect_write(&mut m, CTRL, "1");
    expect_sleep(&mut m, 500);
    expect_read(&mut m, TACH, "600\n");
    // Three refusals: 255, 250, 245; the fourth candidate, 240, is
    // quiet enough.
    expect_write(&mut m, CTRL, "255");
    expect_confirm(&mut m, Topic::MaxOk, false);
    expect_write(&mut m, CTRL, "250");
    expect_confirm(&mut m, Topic::MaxOk, false);
    expect_write(&mut m, CTRL, "245");
    expect_confirm(&mut m, Topic::MaxOk, false);
    expect_write(&mut m, CTRL, "240");
    expect_confirm(&mut m, Topic::MaxOk, true);
    expect_confirm(&mut m, Topic::Cutoff, false);
    match finish(&mut m) {
        Outcome::Accepted(f) => {
            assert_eq!(f.min_pwm, 1);
            assert_eq!(f.max_pwm, 240);
        },
        o => panic!("expected an accepted fan, got {:?}", o),
    }
}

#[test]
fn max_search_clamps_to_min_with_warning() {
    let mut m = FanCalib::new(CTRL.to_string(), vec!["cpu".to_string()]);
    drive_to_min_search(&mut m, "case fan", vec![0]);
    // Establish min_pwm = 40.
    expect_write(&mut m, CTRL, "0");
    expect_sleep(&mut m, 1000);
    expect_read(&mut m, TACH, "0\n");
    for cand in 1..=40u32 {
        expect_write(&mut m, CTRL, &cand.to_string());
        expect_sleep(&mut m, 500);
        expect_read(&mut m, TACH, if cand < 40 { "0\n" } else { "800\n" });
    }
    // Decline every candidate until the next step would not lie above
    // the minimum: 255, 250, ..., 45.
    let mut cand: u32 = 255;
    while cand > 40 {
        expect_write(&mut m, CTRL, &cand.to_string());
        expect_confirm(&mut m, Topic::MaxOk, false);
        cand -= 5;
    }
    expect_notify(&mut m, Note::ClampedMax);
    expect_confirm(&mut m, Topic::Cutoff, false);
    match finish(&mut m) {
        Outcome::Accepted(f) => {
            assert_eq!(f.min_pwm, 40);
            assert_eq!(f.max_pwm, 40);
        },
        o => panic!("expected an accepted fan, got {:?}", o),
    }
}

#[test]
fn empty_selection_is_rejected_and_reprompted() {
    let mut m = FanCalib::new(CTRL.to_string(), vec!["cpu".to_string(), "gpu".to_string()]);
    drive_to_spin_check(&mut m, "1500\n");
    match m.next_action() {
        Action::StartIdentify(..) => m.handle(Event::Done),
        a => panic!("expected the identification start, got {:?}", a),
    }
    expect_confirm(&mut m, Topic::KeepFan, true);
    match m.next_action() {
        Action::StopIdentify => m.handle(Event::Done),
        a => panic!("expected the identification stop, got {:?}", a),
    }
    match m.next_action() {
        Action::AskText => m.handle(Event::Text("front".to_string())),
        a => panic!("expected the name prompt, got {:?}", a),
    }
    // An empty selection, then one whose only index is out of range:
    // both are rejected with a message and a fresh prompt.
    match m.next_action() {
        Action::AskChoices(opts) => {
            assert_eq!(opts, vec!["cpu".to_string(), "gpu".to_string()]);
            m.handle(Event::Choices(vec![]));
        },
        a => panic!("expected the source selection, got {:?}", a),
    }
    expect_notify(&mut m, Note::EmptySelection);
    match m.next_action() {
        Action::AskChoices(_) => m.handle(Event::Choices(vec![7])),
        a => panic!("expected the source selection, got {:?}", a),
    }
    expect_notify(&mut m, Note::EmptySelection);
    match m.next_action() {
        Action::AskChoices(_) => m.handle(Event::Choices(vec![1, 0])),
        a => panic!("expected the source selection, got {:?}", a),
    }
    // The selection took: the minimum search begins.
    expect_write(&mut m, CTRL, "0");
    expect_sleep(&mut m, 1000);
    expect_read(&mut m, TACH, "0\n");
    expect_write(&mut m, CTRL, "1");
    expect_sleep(&mut m, 500);
    expect_read(&mut m, TACH, "700\n");
    expect_write(&mut m, CTRL, "255");
    expect_confirm(&mut m, Topic::MaxOk, true);
    expect_confirm(&mut m, Topic::Cutoff, false);
    match finish(&mut m) {
        Outcome::Accepted(f) => {
            assert_eq!(f.heat_pressure_srcs, vec!["gpu".to_string(), "cpu".to_string()]);
            assert_eq!(f.name, "front");
            assert_eq!(f.wildcard_path, CTRL);
        },
        o => panic!("expected an accepted fan, got {:?}", o),
    }
}

#[test]
fn no_control_file_access_while_identifying() {
    let mut m = FanCalib::new(CTRL.to_string(), vec!["cpu".to_string()]);
    drive_to_spin_check(&mut m, "1200\n");
    match m.next_action() {
        Action::StartIdentify(..) => m.handle(Event::Done),
        a => panic!("expected the identification start, got {:?}", a),
    }
    // From the start of the undulation to the acknowledged stop, the
    // machine asks for no file access at all.
    match m.next_action() {
        Action::WriteFile(..) | Action::ReadFile(..) => {
            panic!("file access requested while the identification task runs")
        },
        Action::AskConfirm(t) => {
            assert_eq!(t, Topic::KeepFan);
            m.handle(Event::Answer(true));
        },
        a => panic!("expected the keep prompt, got {:?}", a),
    }
    match m.next_action() {
        Action::WriteFile(..) | Action::ReadFile(..) => {
            panic!("file access requested before the stop rendezvous")
        },
        Action::StopIdentify => m.handle(Event::Done),
        a => panic!("expected the identification stop, got {:?}", a),
    }
    // Only after the rendezvous does the machine touch files again.
    match m.next_action() {
        Action::AskText => {},
        a => panic!("expected the name prompt, got {:?}", a),
    }
}

#[test]
fn missing_tachometer_sibling_rejects_after_ramp() {
    // A control file whose name does not start with `pwm` has no
    // tachometer to read; the candidate is rejected and automatic
    // control restored.
    let path = "/sys/class/hwmon/hwmon3/speed1";
    let mut m = FanCalib::new(path.to_string(), vec!["cpu".to_string()]);
    expect_write(&mut m, "/sys/class/hwmon/hwmon3/speed1_enable", "1");
    expect_write(&mut m, path, "255");
    expect_sleep(&mut m, 3000);
    expect_write(&mut m, "/sys/class/hwmon/hwmon3/speed1_enable", "0");
    match m.next_action() {
        Action::Finish => {},
        a => panic!("expected the finish, got {:?}", a),
    }
    match m.outcome() {
        Outcome::Rejected => {},
        o => panic!("expected a rejection, got {:?}", o),
    }
}

#[test]
fn write_failure_faults_the_candidate() {
    let mut search = search_fans(vec!["cpu".to_string()]);
    let mut m = search.calibrator(CTRL.to_string());
    match m.next_action() {
        Action::WriteFile(p, c) => {
            assert_eq!(p, ENABLE);
            assert_eq!(c, "1");
            m.handle(Event::Failed);
        },
        a => panic!("expected a write, got {:?}", a),
    }
    match m.next_action() {
        Action::Finish => {},
        a => panic!("expected the finish, got {:?}", a),
    }
    let outcome = m.outcome();
    match &outcome {
        Outcome::Faulted => {},
        o => panic!("expected a fault, got {:?}", o),
    }
    search.record(outcome);
    assert_eq!(search.fans.len(), 0);
}

#[test]
fn broken_keep_prompt_counts_as_decline() {
    let mut m = FanCalib::new(CTRL.to_string(), vec!["cpu".to_string()]);
    drive_to_spin_check(&mut m, "1200\n");
    match m.next_action() {
        Action::StartIdentify(..) => m.handle(Event::Done),
        a => panic!("expected the identification start, got {:?}", a),
    }
    match m.next_action() {
        Action::AskConfirm(t) => {
            assert_eq!(t, Topic::KeepFan);
            m.handle(Event::Failed);
        },
        a => panic!("expected the keep prompt, got {:?}", a),
    }
    match m.next_action() {
        Action::StopIdentify => m.handle(Event::Done),
        a => panic!("expected the identification stop, got {:?}", a),
    }
    match finish(&mut m) {
        Outcome::Rejected => {},
        o => panic!("expected a rejection, got {:?}", o),
    }
}

#[test]
fn accepted_fan_is_recorded() {
    let mut search = search_fans(vec!["cpu".to_string()]);
    let mut m = search.calibrator(CTRL.to_string());
    drive_to_min_search(&mut m, "rear fan", vec![0]);
    expect_write(&mut m, CTRL, "0");
    expect_sleep(&mut m, 1000);
    expect_read(&mut m, TACH, "0\n");
    expect_write(&mut m, CTRL, "1");
    expect_sleep(&mut m, 500);
    expect_read(&mut m, TACH, "650\n");
    expect_write(&mut m, CTRL, "255");
    expect_confirm(&mut m, Topic::MaxOk, true);
    expect_confirm(&mut m, Topic::Cutoff, false);
    let outcome = finish(&mut m);
    search.record(outcome);
    assert_eq!(search.fans.len(), 1);
    assert_eq!(search.fans[0].name, "rear fan");
    assert_eq!(search.fans[0].heat_pressure_srcs, vec!["cpu".to_string()]);
    assert!(search.fans[0].min_pwm <= search.fans[0].max_pwm);
}
