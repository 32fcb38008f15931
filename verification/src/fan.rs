//! The `Fan` entity produced by a completed calibration, and the fan
//! discovery run that collects such fans.

use vstd::prelude::*;
use vstd::string::StringExecFns;

use crate::calib::FanCalib;
use crate::calib::Outcome;
use crate::clone_strings;
use crate::probe::Probe;

verus! {

/// A calibrated fan: the PWM control path it was discovered under, the
/// usable duty range, the cutoff policy, and the names of the heat
/// sources selected to drive it.
#[derive(Debug)]
pub struct Fan {
    pub name: String,
    pub wildcard_path: String,
    pub min_pwm: u8,
    pub max_pwm: u8,
    pub cutoff: bool,
    pub heat_pressure_srcs: Vec<String>,
}

impl Fan {
    /// A well-formed fan never has an inverted duty range and always
    /// references at least one heat source.
    pub open spec fn wf(self) -> bool {
        self.min_pwm <= self.max_pwm && self.heat_pressure_srcs@.len() >= 1
    }

    pub fn new(
        name: String,
        wildcard_path: String,
        min_pwm: u8,
        max_pwm: u8,
        cutoff: bool,
        heat_pressure_srcs: Vec<String>,
    ) -> (r: Self)
        requires
            min_pwm <= max_pwm,
            heat_pressure_srcs@.len() >= 1,
        ensures
            r.name == name,
            r.wildcard_path == wildcard_path,
            r.min_pwm == min_pwm,
            r.max_pwm == max_pwm,
            r.cutoff == cutoff,
            r.heat_pressure_srcs == heat_pressure_srcs,
            r.wf(),
    {
        Self { name, wildcard_path, min_pwm, max_pwm, cutoff, heat_pressure_srcs }
    }
}

/// True when a maximum duty equals the full-scale value, which the
/// serialized form omits as the default.
pub fn default_max(val: &u8) -> (r: bool)
    ensures
        r == (*val == 255),
{
    *val == 0xFF
}

/// True when the cutoff flag is unset, which the serialized form omits
/// as the default.
pub fn default_cutoff(cutoff: &bool) -> (r: bool)
    ensures
        r == !*cutoff,
{
    !*cutoff
}

/// One fan discovery run: the prober over the PWM control patterns,
/// the selectable heat-source names, and the fans kept so far, in
/// discovery order.
pub struct FanSearch {
    pub probe: Probe,
    pub heat_src_names: Vec<String>,
    pub fans: Vec<Fan>,
}

impl FanSearch {
    /// A calibration machine for one candidate control file, over this
    /// run's heat-source names.
    pub fn calibrator(&self, control_path: String) -> (r: FanCalib)
        ensures
            r.phase == crate::calib::Phase::TakeControl,
            r.control_path == control_path,
            r.enable_path@ == crate::paths::spec_enable_path(control_path@),
            match r.rpm_path {
                Some(p) => crate::paths::spec_rpm_path(control_path@) matches Some(q) && p@ == q,
                None => crate::paths::spec_rpm_path(control_path@) is None,
            },
            r.heat_srcs@ == self.heat_src_names@,
            r.inv(),
    {
        FanCalib::new(control_path, clone_strings(&self.heat_src_names))
    }

    /// Records what came of one candidate: only a kept fan is appended;
    /// a rejected or faulted candidate leaves the list as it was.
    pub fn record(&mut self, outcome: Outcome)
        ensures
            final(self).probe == old(self).probe,
            final(self).heat_src_names == old(self).heat_src_names,
            match outcome {
                Outcome::Accepted(f) => final(self).fans@ == old(self).fans@.push(f),
                _ => final(self).fans@ == old(self).fans@,
            },
    {
        match outcome {
            Outcome::Accepted(f) => self.fans.push(f),
            _ => {},
        }
    }
}

/// Begins fan discovery over the `hwmon` PWM control files, with the
/// given heat-source names as the selectable set for every fan.
pub fn search_fans(heat_srcs: Vec<String>) -> (r: FanSearch)
    ensures
        r.probe.patterns@.len() == 1,
        r.probe.patterns@[0]@ == "/sys/class/hwmon/hwmon*/pwm*[0-9]"@,
        r.probe.next_pattern == 0,
        r.probe.pending@.len() == 0,
        r.probe.next_candidate == 0,
        r.heat_src_names == heat_srcs,
        r.fans@.len() == 0,
{
    let mut patterns: Vec<String> = Vec::new();
    patterns.push(String::from_str("/sys/class/hwmon/hwmon*/pwm*[0-9]"));
    FanSearch { probe: Probe::new(patterns), heat_src_names: heat_srcs, fans: Vec::new() }
}

} // verus!
