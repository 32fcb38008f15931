//! Discovery and calibration engine for `hwmon` fans and temperature
//! sensors.
//!
//! The library holds the verified core: path derivation by the `hwmon`
//! naming convention, decimal parsing and formatting, the probing state
//! machine that walks candidate paths, and the fan calibration state
//! machine.  All filesystem access, prompting and serialization is left
//! to the surrounding application, which drives these machines and
//! performs the actions they request.

use vstd::prelude::*;

pub mod calib;
pub mod deps;
pub mod fan;
pub mod heatsrc;
pub mod num;
pub mod paths;
pub mod probe;

pub use fan::default_cutoff;
pub use fan::default_max;
pub use fan::search_fans;
pub use fan::Fan;
pub use fan::FanSearch;
pub use heatsrc::search_heat_srcs;
pub use heatsrc::HeatEval;
pub use heatsrc::HeatSearch;
pub use heatsrc::HeatSrc;
pub use heatsrc::Pid;
pub use probe::search_paths;
pub use probe::Probe;
pub use probe::ProbeReq;

verus! {

/// An element-wise copy of a list of strings, equal to the original.
pub(crate) fn clone_strings(v: &Vec<String>) -> (r: Vec<String>)
    ensures
        r@ == v@,
{
    let mut r: Vec<String> = Vec::new();
    let mut i: usize = 0;
    while i < v.len()
        invariant
            i <= v@.len(),
            r@ == v@.subrange(0, i as int),
        decreases v@.len() - i,
    {
        r.push(v[i].clone());
        proof {
            assert(r@ =~= v@.subrange(0, i + 1 as int));
        }
        i += 1;
    }
    proof {
        assert(v@.subrange(0, i as int) =~= v@);
    }
    r
}

} // verus!
