//! Heat sources: temperature sensors the user accepted during
//! discovery, together with the control gains that a downstream daemon
//! will tune.
//!
//! Temperatures and setpoints are carried in millidegrees Celsius, as
//! the kernel reports them; the serialized artifact converts to degrees
//! at the boundary.

use vstd::prelude::*;
use vstd::string::StringExecFns;

use crate::num::parse_millideg;
use crate::num::spec_parse_millideg;
use crate::paths::label_path_for;
use crate::paths::spec_label_path;
use crate::probe::Probe;

verus! {

/// Control gains for one heat source, in milli-units.  Discovery only
/// records the setpoint; the gains start at zero.
pub struct Pid {
    /// Target temperature, millidegrees Celsius.
    pub set_point: i64,
    pub p: i64,
    pub i: i64,
    pub d: i64,
}

/// A temperature sensor the user accepted, under the display name they
/// gave it.
pub struct HeatSrc {
    pub name: String,
    /// The resolved path of the sensor's `input` file.
    pub wildcard_path: String,
    pub pid_params: Pid,
}

impl HeatSrc {
    /// A freshly discovered heat source: the given setpoint, all gains
    /// zero.
    pub fn new(name: String, wildcard_path: String, set_point: i64) -> (r: Self)
        ensures
            r.name == name,
            r.wildcard_path == wildcard_path,
            r.pid_params.set_point == set_point,
            r.pid_params.p == 0,
            r.pid_params.i == 0,
            r.pid_params.d == 0,
    {
        Self { name, wildcard_path, pid_params: Pid { set_point, p: 0, i: 0, d: 0 } }
    }
}

/// What the driver must do next for one sensor candidate.
#[derive(Debug)]
pub enum HeatAction {
    /// Read the sensor file at the path and report its contents.
    ReadValue(String),
    /// Read the label sibling at the path; a sensor without a readable
    /// label is no candidate.
    ReadLabel(String),
    /// Resolve the candidate path (follow symlinks) and report it.
    Resolve(String),
    /// Present the resolved path, the reading and the label, and ask
    /// whether to add the source.
    Confirm,
    /// Ask the user for the source's display name.
    AskName,
    /// Ask the user for the setpoint, in millidegrees Celsius.
    AskSetPoint,
    /// The candidate is settled; collect the outcome.
    Finish,
}

/// What came of performing the last heat-source action.
#[derive(Debug)]
pub enum HeatEvent {
    /// The action failed (an unreadable file, a broken prompt).
    Failed,
    /// What a read file held.
    Content(String),
    /// The resolved path.
    Resolved(String),
    /// The user's answer to the confirmation.
    Answer(bool),
    /// The name the user entered.
    Text(String),
    /// The setpoint the user entered, in millidegrees.
    Number(i64),
}

/// Where the evaluation of one sensor candidate stands.
#[derive(Clone, Copy, PartialEq, Eq, Structural, Debug)]
pub enum HeatPhase {
    /// Read the raw millidegree value.
    ReadValue,
    /// Read the human-readable label.
    ReadLabel,
    /// Resolve the sensor path for storage.
    Resolve,
    /// Ask whether to add the source.
    AskAdd,
    /// Ask for its display name.
    AskName,
    /// Ask for its setpoint.
    AskSetPoint,
    /// Finished; the source was accepted.
    DoneSome,
    /// Finished; the user declined the source.
    DoneNone,
    /// Finished; a read or a prompt failed and the candidate is
    /// skipped.
    Fault,
}

/// The evaluation of one temperature-sensor candidate.
pub struct HeatEval {
    pub phase: HeatPhase,
    /// The candidate path, as the probe pattern matched it.
    pub path: String,
    /// The parsed reading, millidegrees; an unreadable value counts 0.
    pub value_milli: i64,
    /// The sensor's label, as read.
    pub label: String,
    /// The resolved path, once known.
    pub resolved: String,
    /// The name the user gave the source.
    pub name: String,
    /// The setpoint the user chose, millidegrees.
    pub set_point_milli: i64,
}

/// `m` with only its phase changed.
pub open spec fn heat_with_phase(m: HeatEval, p: HeatPhase) -> HeatEval {
    HeatEval { phase: p, ..m }
}

/// Which actions the evaluation may request in a given state.
pub open spec fn heat_action_ok(m: HeatEval, a: HeatAction) -> bool {
    match m.phase {
        HeatPhase::ReadValue => a matches HeatAction::ReadValue(p) && p@ == m.path@,
        HeatPhase::ReadLabel => a matches HeatAction::ReadLabel(p) && p@ == spec_label_path(
            m.path@,
        ),
        HeatPhase::Resolve => a matches HeatAction::Resolve(p) && p@ == m.path@,
        HeatPhase::AskAdd => a is Confirm,
        HeatPhase::AskName => a is AskName,
        HeatPhase::AskSetPoint => a is AskSetPoint,
        HeatPhase::DoneSome => a is Finish,
        HeatPhase::DoneNone => a is Finish,
        HeatPhase::Fault => a is Finish,
    }
}

/// The transition relation of the evaluation.  An unreadable sensor or
/// label skips the candidate; a broken confirmation counts as
/// declining; the value survives parsing even when unreadable, as 0.
pub open spec fn heat_step_ok(pre: HeatEval, ev: HeatEvent, post: HeatEval) -> bool {
    match pre.phase {
        HeatPhase::ReadValue => match ev {
            HeatEvent::Content(text) => post == HeatEval {
                phase: HeatPhase::ReadLabel,
                value_milli: spec_parse_millideg(text@),
                ..pre
            },
            _ => post == heat_with_phase(pre, HeatPhase::Fault),
        },
        HeatPhase::ReadLabel => match ev {
            HeatEvent::Content(text) => post == HeatEval {
                phase: HeatPhase::Resolve,
                label: text,
                ..pre
            },
            _ => post == heat_with_phase(pre, HeatPhase::Fault),
        },
        HeatPhase::Resolve => match ev {
            HeatEvent::Resolved(text) => post == HeatEval {
                phase: HeatPhase::AskAdd,
                resolved: text,
                ..pre
            },
            _ => post == heat_with_phase(pre, HeatPhase::Fault),
        },
        HeatPhase::AskAdd => match ev {
            HeatEvent::Answer(yes) => post == heat_with_phase(
                pre,
                if yes {
                    HeatPhase::AskName
                } else {
                    HeatPhase::DoneNone
                },
            ),
            // A broken confirmation counts as declining the source.
            HeatEvent::Failed => post == heat_with_phase(pre, HeatPhase::DoneNone),
            _ => post == heat_with_phase(pre, HeatPhase::Fault),
        },
        HeatPhase::AskName => match ev {
            HeatEvent::Text(text) => post == HeatEval {
                phase: HeatPhase::AskSetPoint,
                name: text,
                ..pre
            },
            _ => post == heat_with_phase(pre, HeatPhase::Fault),
        },
        HeatPhase::AskSetPoint => match ev {
            HeatEvent::Number(v) => post == HeatEval {
                phase: HeatPhase::DoneSome,
                set_point_milli: v,
                ..pre
            },
            _ => post == heat_with_phase(pre, HeatPhase::Fault),
        },
        HeatPhase::DoneSome => post == pre,
        HeatPhase::DoneNone => post == pre,
        HeatPhase::Fault => post == pre,
    }
}

impl HeatEval {
    /// Begins evaluating the sensor candidate at `path`.
    pub fn new(path: String) -> (r: HeatEval)
        ensures
            r.phase == HeatPhase::ReadValue,
            r.path == path,
            r.value_milli == 0,
            r.set_point_milli == 0,
            r.label@.len() == 0,
            r.resolved@.len() == 0,
            r.name@.len() == 0,
    {
        HeatEval {
            phase: HeatPhase::ReadValue,
            path,
            value_milli: 0,
            label: String::new(),
            resolved: String::new(),
            name: String::new(),
            set_point_milli: 0,
        }
    }

    /// The action the evaluation wants performed in its current state.
    pub fn next_action(&self) -> (r: HeatAction)
        ensures
            heat_action_ok(*self, r),
    {
        match self.phase {
            HeatPhase::ReadValue => HeatAction::ReadValue(self.path.clone()),
            HeatPhase::ReadLabel => HeatAction::ReadLabel(label_path_for(self.path.as_str())),
            HeatPhase::Resolve => HeatAction::Resolve(self.path.clone()),
            HeatPhase::AskAdd => HeatAction::Confirm,
            HeatPhase::AskName => HeatAction::AskName,
            HeatPhase::AskSetPoint => HeatAction::AskSetPoint,
            HeatPhase::DoneSome | HeatPhase::DoneNone | HeatPhase::Fault => HeatAction::Finish,
        }
    }

    /// Feeds the evaluation what came of the last action.
    pub fn handle(&mut self, ev: HeatEvent)
        ensures
            heat_step_ok(*old(self), ev, *final(self)),
    {
        let phase = self.phase;
        match (phase, ev) {
            (HeatPhase::DoneSome, _) => {},
            (HeatPhase::DoneNone, _) => {},
            (HeatPhase::Fault, _) => {},
            (HeatPhase::ReadValue, HeatEvent::Content(text)) => {
                self.value_milli = parse_millideg(text.as_str());
                self.phase = HeatPhase::ReadLabel;
            },
            (HeatPhase::ReadLabel, HeatEvent::Content(text)) => {
                self.label = text;
                self.phase = HeatPhase::Resolve;
            },
            (HeatPhase::Resolve, HeatEvent::Resolved(text)) => {
                self.resolved = text;
                self.phase = HeatPhase::AskAdd;
            },
            (HeatPhase::AskAdd, HeatEvent::Answer(yes)) => {
                if yes {
                    self.phase = HeatPhase::AskName;
                } else {
                    self.phase = HeatPhase::DoneNone;
                }
            },
            (HeatPhase::AskAdd, HeatEvent::Failed) => {
                self.phase = HeatPhase::DoneNone;
            },
            (HeatPhase::AskName, HeatEvent::Text(text)) => {
                self.name = text;
                self.phase = HeatPhase::AskSetPoint;
            },
            (HeatPhase::AskSetPoint, HeatEvent::Number(v)) => {
                self.set_point_milli = v;
                self.phase = HeatPhase::DoneSome;
            },
            (_, _) => {
                self.phase = HeatPhase::Fault;
            },
        }
    }

    /// Whether the candidate is settled.
    pub fn done(&self) -> (r: bool)
        ensures
            r == (self.phase is DoneSome || self.phase is DoneNone || self.phase is Fault),
    {
        match self.phase {
            HeatPhase::DoneSome | HeatPhase::DoneNone | HeatPhase::Fault => true,
            _ => false,
        }
    }

    /// What came of the candidate: an accepted source carries the name
    /// and setpoint the user gave, the resolved path, and zero gains.
    pub fn outcome(&self) -> (r: Option<HeatSrc>)
        ensures
            match self.phase {
                HeatPhase::DoneSome => r matches Some(h) && h.name@ == self.name@
                    && h.wildcard_path@ == self.resolved@ && h.pid_params.set_point
                    == self.set_point_milli && h.pid_params.p == 0 && h.pid_params.i == 0
                    && h.pid_params.d == 0,
                _ => r is None,
            },
    {
        match self.phase {
            HeatPhase::DoneSome => Some(
                HeatSrc::new(self.name.clone(), self.resolved.clone(), self.set_point_milli),
            ),
            _ => None,
        }
    }
}

/// One heat-source discovery run: the prober over the sensor patterns
/// and the sources accepted so far, in discovery order.
pub struct HeatSearch {
    pub probe: Probe,
    pub heat_srcs: Vec<HeatSrc>,
}

impl HeatSearch {
    /// Records what came of one candidate: an accepted source is
    /// appended, a declined or failed one leaves the list as it was.
    pub fn record(&mut self, found: Option<HeatSrc>)
        ensures
            final(self).probe == old(self).probe,
            match found {
                Some(h) => final(self).heat_srcs@ == old(self).heat_srcs@.push(h),
                None => final(self).heat_srcs@ == old(self).heat_srcs@,
            },
    {
        if let Some(h) = found {
            self.heat_srcs.push(h);
        }
    }
}

/// Begins heat-source discovery over the `hwmon` temperature files.
pub fn search_heat_srcs() -> (r: HeatSearch)
    ensures
        r.probe.patterns@.len() == 1,
        r.probe.patterns@[0]@ == "/sys/class/hwmon/hwmon*/temp*_input"@,
        r.probe.next_pattern == 0,
        r.probe.pending@.len() == 0,
        r.probe.next_candidate == 0,
        r.heat_srcs@.len() == 0,
{
    let mut patterns: Vec<String> = Vec::new();
    patterns.push(String::from_str("/sys/class/hwmon/hwmon*/temp*_input"));
    HeatSearch { probe: Probe::new(patterns), heat_srcs: Vec::new() }
}

/// The display names of the discovered sources, in order: the
/// selectable set handed to fan calibration.
pub fn heat_src_names(srcs: &Vec<HeatSrc>) -> (r: Vec<String>)
    ensures
        r@.len() == srcs@.len(),
        forall|i: int| 0 <= i < r@.len() ==> r@[i]@ == srcs@[i].name@,
{
    let mut r: Vec<String> = Vec::new();
    let mut i: usize = 0;
    while i < srcs.len()
        invariant
            i <= srcs@.len(),
            r@.len() == i,
            forall|j: int| 0 <= j < i ==> r@[j]@ == srcs@[j].name@,
        decreases srcs@.len() - i,
    {
        r.push(srcs[i].name.clone());
        i += 1;
    }
    r
}

} // verus!
