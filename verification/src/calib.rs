//! The fan calibration engine, as a state machine.
//!
//! Calibrating one PWM control file is a fixed dialogue of filesystem
//! writes, settle delays, RPM readbacks and user prompts.  The machine
//! holds the whole sequence: the caller asks for the next [`Action`],
//! performs it (that is where the I/O, the sleeping and the
//! identification thread live), and reports back an [`Event`].  The
//! transition relation [`step_ok`] and the action relation
//! [`action_ok`] say exactly what the machine does at every step, and
//! the lemmas at the bottom state the safety properties of a run: a
//! completed fan has an ordered duty range and a non-empty source
//! selection, a fan whose tachometer reads zero is rejected with the
//! automatic control restored exactly once, and no control-file access
//! is requested while the identification task may still be running.

use vstd::prelude::*;
use vstd::string::StringExecFns;

use crate::clone_strings;
use crate::fan::Fan;
use crate::num::fmt_u8;
use crate::num::parse_rpm;
use crate::num::spec_fmt_u8;
use crate::num::spec_parse_rpm;
use crate::paths::enable_path_for;
use crate::paths::rpm_path_for;
use crate::paths::spec_enable_path;
use crate::paths::spec_rpm_path;

verus! {

/// What a confirmation prompt is about.
#[derive(Clone, Copy, PartialEq, Eq, Structural, Debug)]
pub enum Topic {
    /// "Do you want to add this fan to config?"
    KeepFan,
    /// "Is this maximum fan speed quiet enough for you?"
    MaxOk,
    /// "Should the fan be stopped when minimum pwm is reached?"
    Cutoff,
}

/// A message the user must be shown.
#[derive(Clone, Copy, PartialEq, Eq, Structural, Debug)]
pub enum Note {
    /// The fan kept spinning at zero duty; its minimum is taken as 0.
    NeverStops,
    /// The maximum search ran into the minimum; the fan will run at its
    /// minimum speed continuously.
    ClampedMax,
    /// At least one heat source must be selected.
    EmptySelection,
}

/// What the driver must do next on behalf of the machine.
#[derive(Debug)]
pub enum Action {
    /// Write the exact contents to the file at the path.
    WriteFile(String, String),
    /// Read the file at the path and report its contents.
    ReadFile(String),
    /// Wait this many milliseconds.
    SleepMs(u64),
    /// Start the identification task: alternate writing the two duty
    /// values to the control file, holding each for the half period,
    /// until told to stop.
    StartIdentify(u8, u8, u64),
    /// Signal the identification task to stop and wait until it has
    /// actually finished; report `Done` only after the rendezvous.
    StopIdentify,
    /// Ask the user to confirm.
    AskConfirm(Topic),
    /// Ask the user for the fan's display name.
    AskText,
    /// Ask the user to select heat sources from the listed names.
    AskChoices(Vec<String>),
    /// Show the user a message.
    Notify(Note),
    /// The candidate is settled; collect the outcome.
    Finish,
}

/// What came of performing the last action.
#[derive(Debug)]
pub enum Event {
    /// The action was carried out.
    Done,
    /// The action failed (an I/O error on a write, a broken prompt).
    Failed,
    /// What a read file held.
    Content(String),
    /// The user's answer to a confirmation.
    Answer(bool),
    /// The text the user entered.
    Text(String),
    /// The indices the user selected.
    Choices(Vec<usize>),
}

/// Where the calibration dialogue stands.
#[derive(Clone, Copy, PartialEq, Eq, Structural, Debug)]
pub enum Phase {
    /// Write `1` to the enable sibling: take manual control.
    TakeControl,
    /// Write full duty to the control file.
    RampUp,
    /// Let the fan reach a steady speed.
    RampSettle,
    /// Read the tachometer; zero RPM rejects the candidate.
    CheckSpin,
    /// Start the undulation that identifies the physical fan.
    StartIdent,
    /// Ask whether to keep the fan; the undulation is still running.
    AskKeep,
    /// Stop the undulation, then go on to naming.
    StopAccept,
    /// Stop the undulation, then restore automatic control.
    StopReject,
    /// Ask for the fan's display name.
    AskName,
    /// Ask for the heat sources that shall drive this fan.
    AskSources,
    /// An empty selection was made; say so and ask again.
    NoteEmpty,
    /// Write zero duty to begin the minimum search.
    MinInit,
    /// Wait one second for the fan to spin down; `left` polls remain.
    MinSleep { left: u8 },
    /// Read the tachometer while waiting for the fan to stop.
    MinRead { left: u8 },
    /// The fan stood still: write the candidate minimum duty.
    MinWrite { cand: u8 },
    /// Let the candidate duty settle.
    MinSettle { cand: u8 },
    /// Read the tachometer: does the fan spin at the candidate duty?
    MinCheck { cand: u8 },
    /// The fan never stopped; its minimum duty is taken as 0.
    NoteNeverStops,
    /// Write the candidate maximum duty.
    MaxWrite { cand: u8 },
    /// Ask whether the candidate maximum is quiet enough.
    MaxAsk { cand: u8 },
    /// The maximum search reached the minimum and was clamped there.
    NoteClamp,
    /// Ask whether the fan may be switched off below its minimum.
    AskCutoff,
    /// Restore automatic control, keeping the fan.
    RestoreOk,
    /// Restore automatic control, rejecting the fan.
    RestoreNo,
    /// Finished; the fan was calibrated and kept.
    DoneOk,
    /// Finished; the candidate was rejected or declined.
    DoneNo,
    /// Finished; an action failed or an answer did not fit its prompt.
    Fault,
}

/// The calibration of one PWM control file.
pub struct FanCalib {
    pub phase: Phase,
    /// The control file, as the probe pattern matched it.
    pub control_path: String,
    /// Its enable sibling, derived once at the start.
    pub enable_path: String,
    /// Its tachometer sibling, when the file name allows one.
    pub rpm_path: Option<String>,
    /// The selectable heat-source names.
    pub heat_srcs: Vec<String>,
    /// The name the user gave the fan.
    pub fan_name: String,
    /// The heat sources the user selected.
    pub selected: Vec<String>,
    pub min_pwm: u8,
    pub max_pwm: u8,
    pub cutoff: bool,
}

/// `m` with only its phase changed.
pub open spec fn with_phase(m: FanCalib, p: Phase) -> FanCalib {
    FanCalib { phase: p, ..m }
}

/// The names at the selected indices, in selection order; an index out
/// of range selects nothing.
pub open spec fn spec_gather(opts: Seq<String>, idxs: Seq<usize>) -> Seq<String>
    decreases idxs.len(),
{
    if idxs.len() == 0 {
        Seq::empty()
    } else {
        let rest = spec_gather(opts, idxs.drop_last());
        if (idxs.last() as int) < opts.len() {
            rest + seq![opts[idxs.last() as int]]
        } else {
            rest
        }
    }
}

fn gather(opts: &Vec<String>, idxs: &Vec<usize>) -> (r: Vec<String>)
    ensures
        r@ == spec_gather(opts@, idxs@),
{
    let mut r: Vec<String> = Vec::new();
    let mut i: usize = 0;
    proof {
        assert(idxs@.subrange(0, 0) =~= Seq::<usize>::empty());
    }
    while i < idxs.len()
        invariant
            i <= idxs@.len(),
            r@ == spec_gather(opts@, idxs@.subrange(0, i as int)),
        decreases idxs@.len() - i,
    {
        let ghost prefix = idxs@.subrange(0, i + 1 as int);
        proof {
            assert(prefix.drop_last() =~= idxs@.subrange(0, i as int));
            assert(prefix.last() == idxs@[i as int]);
        }
        let idx = idxs[i];
        if idx < opts.len() {
            r.push(opts[idx].clone());
        }
        i += 1;
    }
    proof {
        assert(idxs@.subrange(0, i as int) =~= idxs@);
    }
    r
}

impl FanCalib {
    /// The identification task may still be writing the control file in
    /// these phases: from its start until the stop rendezvous.
    pub open spec fn identify_active(self) -> bool {
        self.phase is AskKeep || self.phase is StopAccept || self.phase is StopReject
    }

    /// The phases that lie beyond a successful spin check.
    pub open spec fn past_spin_check(self) -> bool {
        match self.phase {
            Phase::StartIdent
            | Phase::AskKeep
            | Phase::StopAccept
            | Phase::AskName
            | Phase::AskSources
            | Phase::NoteEmpty
            | Phase::MinInit
            | Phase::MinSleep { .. }
            | Phase::MinRead { .. }
            | Phase::MinWrite { .. }
            | Phase::MinSettle { .. }
            | Phase::MinCheck { .. }
            | Phase::NoteNeverStops
            | Phase::MaxWrite { .. }
            | Phase::MaxAsk { .. }
            | Phase::NoteClamp
            | Phase::AskCutoff
            | Phase::RestoreOk
            | Phase::DoneOk => true,
            _ => false,
        }
    }

    /// The phases reached only after a non-empty source selection.
    pub open spec fn has_selection(self) -> bool {
        match self.phase {
            Phase::MinInit
            | Phase::MinSleep { .. }
            | Phase::MinRead { .. }
            | Phase::MinWrite { .. }
            | Phase::MinSettle { .. }
            | Phase::MinCheck { .. }
            | Phase::NoteNeverStops
            | Phase::MaxWrite { .. }
            | Phase::MaxAsk { .. }
            | Phase::NoteClamp
            | Phase::AskCutoff
            | Phase::RestoreOk
            | Phase::DoneOk => true,
            _ => false,
        }
    }

    /// What every reachable state of the machine satisfies.
    pub open spec fn inv(self) -> bool {
        &&& (self.phase is CheckSpin || self.past_spin_check()) ==> self.rpm_path is Some
        &&& self.has_selection() ==> self.selected@.len() >= 1
        &&& (self.phase matches Phase::MinSleep { left } ==> 1 <= left <= 30)
        &&& (self.phase matches Phase::MinRead { left } ==> 1 <= left <= 30)
        &&& (self.phase matches Phase::MinWrite { cand } ==> cand >= 1)
        &&& (self.phase matches Phase::MinSettle { cand } ==> cand >= 1)
        &&& (self.phase matches Phase::MinCheck { cand } ==> cand >= 1)
        &&& (self.phase matches Phase::MaxWrite { cand } ==> self.min_pwm <= cand)
        &&& (self.phase matches Phase::MaxAsk { cand } ==> self.min_pwm <= cand)
        &&& ((self.phase is NoteClamp || self.phase is AskCutoff || self.phase is RestoreOk
            || self.phase is DoneOk) ==> self.min_pwm <= self.max_pwm)
    }

    /// Begins calibrating the fan behind `control_path`, with
    /// `heat_srcs` as the selectable source names.  The sibling paths
    /// are derived here, once, by the `hwmon` naming convention.
    pub fn new(control_path: String, heat_srcs: Vec<String>) -> (r: FanCalib)
        ensures
            r.phase == Phase::TakeControl,
            r.control_path == control_path,
            r.enable_path@ == spec_enable_path(control_path@),
            match r.rpm_path {
                Some(p) => spec_rpm_path(control_path@) matches Some(q) && p@ == q,
                None => spec_rpm_path(control_path@) is None,
            },
            r.heat_srcs == heat_srcs,
            r.selected@.len() == 0,
            r.fan_name@.len() == 0,
            r.min_pwm == 0,
            r.max_pwm == 255,
            r.cutoff == false,
            r.inv(),
    {
        let enable_path = enable_path_for(control_path.as_str());
        let rpm_path = rpm_path_for(control_path.as_str());
        FanCalib {
            phase: Phase::TakeControl,
            control_path,
            enable_path,
            rpm_path,
            heat_srcs,
            fan_name: String::new(),
            selected: Vec::new(),
            min_pwm: 0,
            max_pwm: 255,
            cutoff: false,
        }
    }
}

/// Which actions the machine may request in a given state: exactly one
/// kind per phase, with the paths and contents pinned down.
pub open spec fn action_ok(m: FanCalib, a: Action) -> bool {
    match m.phase {
        Phase::TakeControl => a matches Action::WriteFile(p, c) && p@ == m.enable_path@ && c@
            == "1"@,
        Phase::RampUp => a matches Action::WriteFile(p, c) && p@ == m.control_path@ && c@
            == "255"@,
        Phase::RampSettle => a matches Action::SleepMs(ms) && ms == 3000,
        Phase::CheckSpin => m.rpm_path matches Some(rp) && a matches Action::ReadFile(p) && p@
            == rp@,
        Phase::StartIdent => a matches Action::StartIdentify(lo, hi, half) && lo == 0 && hi == 255
            && half == 10000,
        Phase::AskKeep => a matches Action::AskConfirm(t) && t == Topic::KeepFan,
        Phase::StopAccept => a is StopIdentify,
        Phase::StopReject => a is StopIdentify,
        Phase::AskName => a is AskText,
        Phase::AskSources => a matches Action::AskChoices(opts) && opts@ == m.heat_srcs@,
        Phase::NoteEmpty => a matches Action::Notify(n) && n == Note::EmptySelection,
        Phase::MinInit => a matches Action::WriteFile(p, c) && p@ == m.control_path@ && c@
            == "0"@,
        Phase::MinSleep { .. } => a matches Action::SleepMs(ms) && ms == 1000,
        Phase::MinRead { .. } => m.rpm_path matches Some(rp) && a matches Action::ReadFile(p)
            && p@ == rp@,
        Phase::MinWrite { cand } => a matches Action::WriteFile(p, c) && p@ == m.control_path@
            && c@ == spec_fmt_u8(cand),
        Phase::MinSettle { .. } => a matches Action::SleepMs(ms) && ms == 500,
        Phase::MinCheck { .. } => m.rpm_path matches Some(rp) && a matches Action::ReadFile(p)
            && p@ == rp@,
        Phase::NoteNeverStops => a matches Action::Notify(n) && n == Note::NeverStops,
        Phase::MaxWrite { cand } => a matches Action::WriteFile(p, c) && p@ == m.control_path@
            && c@ == spec_fmt_u8(cand),
        Phase::MaxAsk { .. } => a matches Action::AskConfirm(t) && t == Topic::MaxOk,
        Phase::NoteClamp => a matches Action::Notify(n) && n == Note::ClampedMax,
        Phase::AskCutoff => a matches Action::AskConfirm(t) && t == Topic::Cutoff,
        Phase::RestoreOk => a matches Action::WriteFile(p, c) && p@ == m.enable_path@ && c@
            == "0"@,
        Phase::RestoreNo => a matches Action::WriteFile(p, c) && p@ == m.enable_path@ && c@
            == "0"@,
        Phase::DoneOk => a is Finish,
        Phase::DoneNo => a is Finish,
        Phase::Fault => a is Finish,
    }
}

/// The transition relation: what one reported event does to the
/// machine.  An event that does not answer the phase's action faults
/// the candidate; a terminal phase never moves again.
pub open spec fn step_ok(pre: FanCalib, ev: Event, post: FanCalib) -> bool {
    match pre.phase {
        Phase::TakeControl => post == with_phase(
            pre,
            if ev is Done {
                Phase::RampUp
            } else {
                Phase::Fault
            },
        ),
        Phase::RampUp => post == with_phase(
            pre,
            if ev is Done {
                Phase::RampSettle
            } else {
                Phase::Fault
            },
        ),
        Phase::RampSettle => post == with_phase(
            pre,
            if ev is Done {
                if pre.rpm_path is Some {
                    Phase::CheckSpin
                } else {
                    // No tachometer sibling: the readback would be 0.
                    Phase::RestoreNo
                }
            } else {
                Phase::Fault
            },
        ),
        Phase::CheckSpin => match ev {
            Event::Content(text) => post == with_phase(
                pre,
                if spec_parse_rpm(text@) == 0 {
                    Phase::RestoreNo
                } else {
                    Phase::StartIdent
                },
            ),
            _ => post == with_phase(pre, Phase::Fault),
        },
        Phase::StartIdent => post == with_phase(
            pre,
            if ev is Done {
                Phase::AskKeep
            } else {
                Phase::Fault
            },
        ),
        Phase::AskKeep => match ev {
            Event::Answer(yes) => post == with_phase(
                pre,
                if yes {
                    Phase::StopAccept
                } else {
                    Phase::StopReject
                },
            ),
            // A broken prompt counts as declining the fan.
            Event::Failed => post == with_phase(pre, Phase::StopReject),
            _ => post == with_phase(pre, Phase::Fault),
        },
        Phase::StopAccept => post == with_phase(
            pre,
            if ev is Done {
                Phase::AskName
            } else {
                Phase::Fault
            },
        ),
        Phase::StopReject => post == with_phase(
            pre,
            if ev is Done {
                Phase::RestoreNo
            } else {
                Phase::Fault
            },
        ),
        Phase::AskName => match ev {
            Event::Text(text) => post == FanCalib {
                phase: Phase::AskSources,
                fan_name: text,
                ..pre
            },
            _ => post == with_phase(pre, Phase::Fault),
        },
        Phase::AskSources => match ev {
            Event::Choices(indices) => {
                let sel = spec_gather(pre.heat_srcs@, indices@);
                if sel.len() == 0 {
                    post == with_phase(pre, Phase::NoteEmpty)
                } else {
                    post.selected@ == sel && post == FanCalib {
                        phase: Phase::MinInit,
                        selected: post.selected,
                        ..pre
                    }
                }
            },
            _ => post == with_phase(pre, Phase::Fault),
        },
        Phase::NoteEmpty => post == with_phase(
            pre,
            if ev is Done {
                Phase::AskSources
            } else {
                Phase::Fault
            },
        ),
        Phase::MinInit => post == with_phase(
            pre,
            if ev is Done {
                Phase::MinSleep { left: 30 }
            } else {
                Phase::Fault
            },
        ),
        Phase::MinSleep { left } => post == with_phase(
            pre,
            if ev is Done {
                Phase::MinRead { left }
            } else {
                Phase::Fault
            },
        ),
        Phase::MinRead { left } => match ev {
            Event::Content(text) => post == with_phase(
                pre,
                if spec_parse_rpm(text@) == 0 {
                    Phase::MinWrite { cand: 1 }
                } else if left > 1 {
                    Phase::MinSleep { left: (left - 1) as u8 }
                } else {
                    Phase::NoteNeverStops
                },
            ),
            _ => post == with_phase(pre, Phase::Fault),
        },
        Phase::MinWrite { cand } => post == with_phase(
            pre,
            if ev is Done {
                Phase::MinSettle { cand }
            } else {
                Phase::Fault
            },
        ),
        Phase::MinSettle { cand } => post == with_phase(
            pre,
            if ev is Done {
                Phase::MinCheck { cand }
            } else {
                Phase::Fault
            },
        ),
        Phase::MinCheck { cand } => match ev {
            Event::Content(text) => {
                if spec_parse_rpm(text@) != 0 {
                    post == FanCalib {
                        phase: Phase::MaxWrite { cand: 255 },
                        min_pwm: cand,
                        ..pre
                    }
                } else {
                    post == with_phase(
                        pre,
                        Phase::MinWrite {
                            cand: if cand == 255 {
                                255
                            } else {
                                (cand + 1) as u8
                            },
                        },
                    )
                }
            },
            _ => post == with_phase(pre, Phase::Fault),
        },
        Phase::NoteNeverStops => post == with_phase(
            pre,
            if ev is Done {
                Phase::MaxWrite { cand: 255 }
            } else {
                Phase::Fault
            },
        ),
        Phase::MaxWrite { cand } => post == with_phase(
            pre,
            if ev is Done {
                Phase::MaxAsk { cand }
            } else {
                Phase::Fault
            },
        ),
        Phase::MaxAsk { cand } => match ev {
            Event::Answer(yes) => {
                if yes {
                    post == FanCalib { phase: Phase::AskCutoff, max_pwm: cand, ..pre }
                } else {
                    let next = if cand >= 5 {
                        (cand - 5) as u8
                    } else {
                        0u8
                    };
                    if next <= pre.min_pwm {
                        post == FanCalib { phase: Phase::NoteClamp, max_pwm: pre.min_pwm, ..pre }
                    } else {
                        post == with_phase(pre, Phase::MaxWrite { cand: next })
                    }
                }
            },
            _ => post == with_phase(pre, Phase::Fault),
        },
        Phase::NoteClamp => post == with_phase(
            pre,
            if ev is Done {
                Phase::AskCutoff
            } else {
                Phase::Fault
            },
        ),
        Phase::AskCutoff => match ev {
            Event::Answer(yes) => post == FanCalib { phase: Phase::RestoreOk, cutoff: yes, ..pre },
            _ => post == with_phase(pre, Phase::Fault),
        },
        Phase::RestoreOk => post == with_phase(
            pre,
            if ev is Done {
                Phase::DoneOk
            } else {
                Phase::Fault
            },
        ),
        Phase::RestoreNo => post == with_phase(
            pre,
            if ev is Done {
                Phase::DoneNo
            } else {
                Phase::Fault
            },
        ),
        Phase::DoneOk => post == pre,
        Phase::DoneNo => post == pre,
        Phase::Fault => post == pre,
    }
}

/// What came of one candidate, once the machine has finished.
#[derive(Debug)]
pub enum Outcome {
    /// The user kept the fan; here is its calibration.
    Accepted(Fan),
    /// The candidate was rejected (zero RPM) or declined by the user.
    Rejected,
    /// An action failed; the candidate is skipped.
    Faulted,
}

impl FanCalib {
    /// The action the machine wants performed in its current state.
    pub fn next_action(&self) -> (r: Action)
        ensures
            self.inv() ==> action_ok(*self, r),
    {
        match self.phase {
            Phase::TakeControl => Action::WriteFile(
                self.enable_path.clone(),
                String::from_str("1"),
            ),
            Phase::RampUp => Action::WriteFile(self.control_path.clone(), String::from_str("255")),
            Phase::RampSettle => Action::SleepMs(3000),
            Phase::CheckSpin | Phase::MinRead { .. } | Phase::MinCheck { .. } => match &self
                .rpm_path {
                Some(p) => Action::ReadFile(p.clone()),
                // The reading phases are reached only with a derived
                // tachometer path; without one the machine is already
                // off its reachable states, so the candidate is ended.
                None => Action::Finish,
            },
            Phase::StartIdent => Action::StartIdentify(0, 255, 10000),
            Phase::AskKeep => Action::AskConfirm(Topic::KeepFan),
            Phase::StopAccept | Phase::StopReject => Action::StopIdentify,
            Phase::AskName => Action::AskText,
            Phase::AskSources => Action::AskChoices(clone_strings(&self.heat_srcs)),
            Phase::NoteEmpty => Action::Notify(Note::EmptySelection),
            Phase::MinInit => Action::WriteFile(self.control_path.clone(), String::from_str("0")),
            Phase::MinSleep { .. } => Action::SleepMs(1000),
            Phase::MinWrite { cand } => Action::WriteFile(self.control_path.clone(), fmt_u8(cand)),
            Phase::MinSettle { .. } => Action::SleepMs(500),
            Phase::NoteNeverStops => Action::Notify(Note::NeverStops),
            Phase::MaxWrite { cand } => Action::WriteFile(self.control_path.clone(), fmt_u8(cand)),
            Phase::MaxAsk { .. } => Action::AskConfirm(Topic::MaxOk),
            Phase::NoteClamp => Action::Notify(Note::ClampedMax),
            Phase::AskCutoff => Action::AskConfirm(Topic::Cutoff),
            Phase::RestoreOk | Phase::RestoreNo => Action::WriteFile(
                self.enable_path.clone(),
                String::from_str("0"),
            ),
            Phase::DoneOk | Phase::DoneNo | Phase::Fault => Action::Finish,
        }
    }

    /// Feeds the machine what came of the last action.
    pub fn handle(&mut self, ev: Event)
        ensures
            step_ok(*old(self), ev, *final(self)),
            old(self).inv() ==> final(self).inv(),
    {
        let phase = self.phase;
        match (phase, ev) {
            (Phase::DoneOk, _) => {},
            (Phase::DoneNo, _) => {},
            (Phase::Fault, _) => {},
            (Phase::TakeControl, Event::Done) => {
                self.phase = Phase::RampUp;
            },
            (Phase::RampUp, Event::Done) => {
                self.phase = Phase::RampSettle;
            },
            (Phase::RampSettle, Event::Done) => {
                if self.rpm_path.is_some() {
                    self.phase = Phase::CheckSpin;
                } else {
                    self.phase = Phase::RestoreNo;
                }
            },
            (Phase::CheckSpin, Event::Content(text)) => {
                let rpm = parse_rpm(text.as_str());
                if rpm == 0 {
                    self.phase = Phase::RestoreNo;
                } else {
                    self.phase = Phase::StartIdent;
                }
            },
            (Phase::StartIdent, Event::Done) => {
                self.phase = Phase::AskKeep;
            },
            (Phase::AskKeep, Event::Answer(yes)) => {
                if yes {
                    self.phase = Phase::StopAccept;
                } else {
                    self.phase = Phase::StopReject;
                }
            },
            (Phase::AskKeep, Event::Failed) => {
                self.phase = Phase::StopReject;
            },
            (Phase::StopAccept, Event::Done) => {
                self.phase = Phase::AskName;
            },
            (Phase::StopReject, Event::Done) => {
                self.phase = Phase::RestoreNo;
            },
            (Phase::AskName, Event::Text(text)) => {
                self.fan_name = text;
                self.phase = Phase::AskSources;
            },
            (Phase::AskSources, Event::Choices(indices)) => {
                let sel = gather(&self.heat_srcs, &indices);
                if sel.len() == 0 {
                    self.phase = Phase::NoteEmpty;
                } else {
                    self.selected = sel;
                    self.phase = Phase::MinInit;
                }
            },
            (Phase::NoteEmpty, Event::Done) => {
                self.phase = Phase::AskSources;
            },
            (Phase::MinInit, Event::Done) => {
                self.phase = Phase::MinSleep { left: 30 };
            },
            (Phase::MinSleep { left }, Event::Done) => {
                self.phase = Phase::MinRead { left };
            },
            (Phase::MinRead { left }, Event::Content(text)) => {
                let rpm = parse_rpm(text.as_str());
                if rpm == 0 {
                    self.phase = Phase::MinWrite { cand: 1 };
                } else if left > 1 {
                    self.phase = Phase::MinSleep { left: left - 1 };
                } else {
                    self.phase = Phase::NoteNeverStops;
                }
            },
            (Phase::MinWrite { cand }, Event::Done) => {
                self.phase = Phase::MinSettle { cand };
            },
            (Phase::MinSettle { cand }, Event::Done) => {
                self.phase = Phase::MinCheck { cand };
            },
            (Phase::MinCheck { cand }, Event::Content(text)) => {
                let rpm = parse_rpm(text.as_str());
                if rpm != 0 {
                    self.min_pwm = cand;
                    self.phase = Phase::MaxWrite { cand: 255 };
                } else {
                    let next = if cand == 255 {
                        255
                    } else {
                        cand + 1
                    };
                    self.phase = Phase::MinWrite { cand: next };
                }
            },
            (Phase::NoteNeverStops, Event::Done) => {
                self.phase = Phase::MaxWrite { cand: 255 };
            },
            (Phase::MaxWrite { cand }, Event::Done) => {
                self.phase = Phase::MaxAsk { cand };
            },
            (Phase::MaxAsk { cand }, Event::Answer(yes)) => {
                if yes {
                    self.max_pwm = cand;
                    self.phase = Phase::AskCutoff;
                } else {
                    let next = if cand >= 5 {
                        cand - 5
                    } else {
                        0
                    };
                    if next <= self.min_pwm {
                        self.max_pwm = self.min_pwm;
                        self.phase = Phase::NoteClamp;
                    } else {
                        self.phase = Phase::MaxWrite { cand: next };
                    }
                }
            },
            (Phase::NoteClamp, Event::Done) => {
                self.phase = Phase::AskCutoff;
            },
            (Phase::AskCutoff, Event::Answer(yes)) => {
                self.cutoff = yes;
                self.phase = Phase::RestoreOk;
            },
            (Phase::RestoreOk, Event::Done) => {
                self.phase = Phase::DoneOk;
            },
            (Phase::RestoreNo, Event::Done) => {
                self.phase = Phase::DoneNo;
            },
            (_, _) => {
                self.phase = Phase::Fault;
            },
        }
    }

    /// Whether the candidate is settled.
    pub fn done(&self) -> (r: bool)
        ensures
            r == (self.phase is DoneOk || self.phase is DoneNo || self.phase is Fault),
    {
        match self.phase {
            Phase::DoneOk | Phase::DoneNo | Phase::Fault => true,
            _ => false,
        }
    }

    /// What came of the candidate.  A kept fan carries exactly the
    /// calibrated values; under the machine invariant it is well
    /// formed.
    pub fn outcome(&self) -> (r: Outcome)
        ensures
            match self.phase {
                Phase::DoneOk => r matches Outcome::Accepted(f) && f.name@ == self.fan_name@
                    && f.wildcard_path@ == self.control_path@ && f.min_pwm == self.min_pwm
                    && f.max_pwm == self.max_pwm && f.cutoff == self.cutoff
                    && f.heat_pressure_srcs@ == self.selected@ && (self.inv() ==> f.wf()),
                Phase::DoneNo => r is Rejected,
                _ => r is Faulted,
            },
    {
        match self.phase {
            Phase::DoneOk => Outcome::Accepted(
                Fan {
                    name: self.fan_name.clone(),
                    wildcard_path: self.control_path.clone(),
                    min_pwm: self.min_pwm,
                    max_pwm: self.max_pwm,
                    cutoff: self.cutoff,
                    heat_pressure_srcs: clone_strings(&self.selected),
                },
            ),
            Phase::DoneNo => Outcome::Rejected,
            _ => Outcome::Faulted,
        }
    }
}

/// A completed calibration keeps the duty range ordered: the clamp in
/// the maximum search never lets `max_pwm` fall below `min_pwm`.
pub proof fn lemma_completed_range_ordered(m: FanCalib)
    requires
        m.inv(),
        m.phase is DoneOk,
    ensures
        m.min_pwm <= m.max_pwm,
{
}

/// A completed calibration carries at least one heat source: the
/// selection step never passes an empty choice on.
pub proof fn lemma_completed_selection_nonempty(m: FanCalib)
    requires
        m.inv(),
        m.phase is DoneOk,
    ensures
        m.selected@.len() >= 1,
{
}

/// An empty selection is rejected: the machine re-prompts and keeps its
/// earlier state.
pub proof fn lemma_empty_selection_rejected(pre: FanCalib, indices: Vec<usize>, post: FanCalib)
    requires
        pre.phase is AskSources,
        spec_gather(pre.heat_srcs@, indices@).len() == 0,
        step_ok(pre, Event::Choices(indices), post),
    ensures
        post.phase is NoteEmpty,
        post.selected == pre.selected,
{
}

/// A zero RPM reading at the spin check rejects the candidate: the one
/// and only action between the reading and the end of the run is a
/// single write restoring automatic control, and the run ends rejected.
pub proof fn lemma_spin_zero_rejected(m0: FanCalib, text: String, m1: FanCalib, m2: FanCalib)
    requires
        m0.phase is CheckSpin,
        spec_parse_rpm(text@) == 0,
        step_ok(m0, Event::Content(text), m1),
        step_ok(m1, Event::Done, m2),
    ensures
        m1.phase is RestoreNo,
        forall|a: Action|
            action_ok(m1, a) ==> (a matches Action::WriteFile(p, c) && p@ == m0.enable_path@ && c@
                == "0"@),
        m2.phase is DoneNo,
        forall|a: Action| action_ok(m2, a) ==> a is Finish,
{
}

/// While the identification task may still be running, the machine
/// never asks for a control-file access: the only requests it makes are
/// the keep-or-discard prompt and the stop rendezvous itself.
pub proof fn lemma_no_file_access_while_identifying(m: FanCalib, a: Action)
    requires
        m.identify_active(),
        action_ok(m, a),
    ensures
        !(a is WriteFile),
        !(a is ReadFile),
{
}

/// The identification task is considered over only at the acknowledged
/// stop: apart from a protocol fault (which dead-ends the machine with
/// no further file access), the machine leaves the identify phases only
/// through `StopIdentify` answered with `Done` - the join.
pub proof fn lemma_identify_release_is_rendezvous(pre: FanCalib, ev: Event, post: FanCalib)
    requires
        pre.identify_active(),
        step_ok(pre, ev, post),
        !post.identify_active(),
        !(post.phase is Fault),
    ensures
        pre.phase is StopAccept || pre.phase is StopReject,
        ev is Done,
{
}

} // verus!
