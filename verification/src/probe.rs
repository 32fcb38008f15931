//! The path prober: walks a list of glob patterns, asking the caller to
//! expand each one against the filesystem and then to evaluate each
//! matched candidate in turn.
//!
//! The prober is a small state machine: the caller repeatedly asks for
//! the next request, performs it (expansion or evaluation), and reports
//! what happened.  A malformed pattern or a failed candidate is skipped
//! without disturbing the rest of the walk.

use vstd::prelude::*;

verus! {

/// What the prober wants done next.
#[derive(Debug)]
pub enum ProbeReq {
    /// Expand this glob pattern against the filesystem.
    Expand(String),
    /// Evaluate this candidate path.
    Eval(String),
    /// Every pattern has been expanded and every candidate evaluated.
    Done,
}

pub struct Probe {
    pub patterns: Vec<String>,
    /// How many patterns have been consumed (expanded or skipped).
    pub next_pattern: usize,
    /// The candidates of the last expanded pattern, in enumeration
    /// order.
    pub pending: Vec<String>,
    /// How many of `pending` have been evaluated.
    pub next_candidate: usize,
}

impl Probe {
    /// Candidates of the current pattern are evaluated before the next
    /// pattern is expanded.
    pub open spec fn wants_eval(self) -> bool {
        self.next_candidate < self.pending@.len()
    }

    pub open spec fn wants_expand(self) -> bool {
        !self.wants_eval() && self.next_pattern < self.patterns@.len()
    }

    pub fn new(patterns: Vec<String>) -> (r: Self)
        ensures
            r.patterns == patterns,
            r.next_pattern == 0,
            r.pending@.len() == 0,
            r.next_candidate == 0,
    {
        Self { patterns, next_pattern: 0, pending: Vec::new(), next_candidate: 0 }
    }

    pub fn next_request(&self) -> (r: ProbeReq)
        ensures
            match r {
                ProbeReq::Eval(p) => self.wants_eval() && p@ == self.pending@[
                    self.next_candidate as int
                ]@,
                ProbeReq::Expand(p) => self.wants_expand() && p@ == self.patterns@[
                    self.next_pattern as int
                ]@,
                ProbeReq::Done => !self.wants_eval() && !self.wants_expand(),
            },
    {
        if self.next_candidate < self.pending.len() {
            ProbeReq::Eval(self.pending[self.next_candidate].clone())
        } else if self.next_pattern < self.patterns.len() {
            ProbeReq::Expand(self.patterns[self.next_pattern].clone())
        } else {
            ProbeReq::Done
        }
    }

    /// The current pattern expanded to these candidates, in enumeration
    /// order.
    pub fn expanded(&mut self, paths: Vec<String>)
        requires
            old(self).wants_expand(),
        ensures
            final(self).patterns == old(self).patterns,
            final(self).next_pattern == old(self).next_pattern + 1,
            final(self).pending == paths,
            final(self).next_candidate == 0,
    {
        proof {
            assert(self.patterns.len() == self.patterns@.len());
        }
        self.next_pattern += 1;
        self.pending = paths;
        self.next_candidate = 0;
    }

    /// The current pattern was malformed (or its expansion failed as a
    /// whole): it is skipped.  The patterns after it are untouched and
    /// will still be expanded.
    pub fn expand_failed(&mut self)
        requires
            old(self).wants_expand(),
        ensures
            final(self).patterns == old(self).patterns,
            final(self).next_pattern == old(self).next_pattern + 1,
            final(self).pending@.len() == 0,
            final(self).next_candidate == 0,
    {
        proof {
            assert(self.patterns.len() == self.patterns@.len());
        }
        self.next_pattern += 1;
        self.pending = Vec::new();
        self.next_candidate = 0;
    }

    /// The current candidate has been dealt with, whatever came of it.
    pub fn candidate_done(&mut self)
        requires
            old(self).wants_eval(),
        ensures
            final(self).patterns == old(self).patterns,
            final(self).next_pattern == old(self).next_pattern,
            final(self).pending == old(self).pending,
            final(self).next_candidate == old(self).next_candidate + 1,
    {
        proof {
            assert(self.pending.len() == self.pending@.len());
        }
        self.next_candidate += 1;
    }
}

/// A malformed pattern in the list does not prevent the patterns after
/// it from being expanded: skipping it only moves the pattern cursor
/// forward by one, every later pattern stays in place and in line, and
/// the prober immediately asks for the next one when there is one.
pub proof fn lemma_malformed_pattern_skipped(pre: Probe, post: Probe)
    requires
        pre.wants_expand(),
        post.patterns == pre.patterns,
        post.next_pattern == pre.next_pattern + 1,
        post.pending@.len() == 0,
        post.next_candidate == 0,
    ensures
        forall|j: int|
            pre.next_pattern < j < pre.patterns@.len() ==> post.patterns@[j] == pre.patterns@[j],
        pre.next_pattern + 1 < pre.patterns@.len() ==> post.wants_expand(),
{
}

/// The prober over a fixed pattern list, before anything has been
/// expanded.
pub fn search_paths(possible_paths: Vec<String>) -> (r: Probe)
    ensures
        r.patterns == possible_paths,
        r.next_pattern == 0,
        r.pending@.len() == 0,
        r.next_candidate == 0,
{
    Probe::new(possible_paths)
}

} // verus!
