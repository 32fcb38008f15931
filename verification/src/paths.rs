//! Derivation of the sibling files that the `hwmon` naming convention
//! keys to a PWM control file or a temperature input file.

use vstd::prelude::*;
use vstd::string::StrSliceExecFns;
use vstd::string::StringExecFns;

verus! {

/// The enable sibling of a control file: the same path with `_enable`
/// appended to the file name.
pub open spec fn spec_enable_path(s: Seq<char>) -> Seq<char> {
    s + "_enable"@
}

pub fn enable_path_for(ctrl: &str) -> (r: String)
    ensures
        r@ == spec_enable_path(ctrl@),
{
    let mut r = String::from_str(ctrl);
    r.append("_enable");
    r
}

/// The index of the last `/` of `s`, or -1 when it has none.
pub open spec fn last_slash_idx(s: Seq<char>) -> int
    decreases s.len(),
{
    if s.len() == 0 {
        -1
    } else if s[s.len() - 1] == '/' {
        s.len() - 1
    } else {
        last_slash_idx(s.drop_last())
    }
}

proof fn lemma_last_slash_at(s: Seq<char>, k: int)
    requires
        0 <= k < s.len(),
        s[k] == '/',
        forall|j: int| k < j < s.len() ==> s[j] != '/',
    ensures
        last_slash_idx(s) == k,
    decreases s.len(),
{
    if k < s.len() - 1 {
        assert(s.drop_last()[k] == '/');
        lemma_last_slash_at(s.drop_last(), k);
    }
}

proof fn lemma_no_slash(s: Seq<char>)
    requires
        forall|j: int| 0 <= j < s.len() ==> s[j] != '/',
    ensures
        last_slash_idx(s) == -1,
    decreases s.len(),
{
    if s.len() > 0 {
        lemma_no_slash(s.drop_last());
    }
}

/// The file-name part of a path: what follows the last `/`.
pub open spec fn spec_file_name(s: Seq<char>) -> Seq<char> {
    s.subrange(last_slash_idx(s) + 1, s.len() as int)
}

/// The directory part of a path, up to and including the last `/`.
pub open spec fn spec_dir_prefix(s: Seq<char>) -> Seq<char> {
    s.subrange(0, last_slash_idx(s) + 1)
}

/// The tachometer sibling of a PWM control file: a file name `pwm{N}`
/// keys to `fan{N}_input` in the same directory.  A control file whose
/// name does not start with `pwm` has no readable tachometer.
pub open spec fn spec_rpm_path(s: Seq<char>) -> Option<Seq<char>> {
    let f = spec_file_name(s);
    if f.len() >= 3 && f.subrange(0, 3) == "pwm"@ {
        Some(spec_dir_prefix(s) + "fan"@ + f.subrange(3, f.len() as int) + "_input"@)
    } else {
        None
    }
}

proof fn lemma_last_slash_bounds(s: Seq<char>)
    ensures
        -1 <= last_slash_idx(s) < s.len(),
        last_slash_idx(s) >= 0 ==> s[last_slash_idx(s)] == '/',
    decreases s.len(),
{
    if s.len() > 0 && s[s.len() - 1] != '/' {
        lemma_last_slash_bounds(s.drop_last());
    }
}

pub fn rpm_path_for(ctrl: &str) -> (r: Option<String>)
    ensures
        match r {
            Some(p) => spec_rpm_path(ctrl@) matches Some(q) && p@ == q,
            None => spec_rpm_path(ctrl@) is None,
        },
{
    let n = ctrl.unicode_len();
    // `start` ends up one past the last slash, i.e. where the file name
    // begins.
    let mut start: usize = 0;
    let mut j: usize = 0;
    while j < n
        invariant
            0 <= start <= j <= n,
            n == ctrl@.len(),
            start > 0 ==> ctrl@[start - 1] == '/',
            forall|t: int| start <= t < j ==> ctrl@[t] != '/',
            start == 0 ==> forall|t: int| 0 <= t < j ==> ctrl@[t] != '/',
        decreases n - j,
    {
        if ctrl.get_char(j) == '/' {
            start = j + 1;
        }
        j += 1;
    }
    proof {
        if start > 0 {
            lemma_last_slash_at(ctrl@, start - 1);
        } else {
            lemma_no_slash(ctrl@);
        }
        assert(last_slash_idx(ctrl@) + 1 == start);
        reveal_strlit("pwm");
    }
    let ghost f = spec_file_name(ctrl@);
    if n - start < 3 {
        return None;
    }
    proof {
        assert(f.len() == n - start);
        assert(f[0] == ctrl@[start as int]);
        assert(f[1] == ctrl@[start + 1]);
        assert(f[2] == ctrl@[start + 2]);
    }
    if ctrl.get_char(start) != 'p' || ctrl.get_char(start + 1) != 'w' || ctrl.get_char(start + 2)
        != 'm' {
        proof {
            assert(f.subrange(0, 3) != "pwm"@) by {
                assert(f.subrange(0, 3)[0] == f[0]);
                assert(f.subrange(0, 3)[1] == f[1]);
                assert(f.subrange(0, 3)[2] == f[2]);
            }
        }
        return None;
    }
    proof {
        assert(f.subrange(0, 3) =~= "pwm"@);
    }
    let dir = ctrl.substring_char(0, start);
    let suffix = ctrl.substring_char(start + 3, n);
    let mut r = String::from_str(dir);
    r.append("fan");
    r.append(suffix);
    r.append("_input");
    proof {
        assert(suffix@ =~= f.subrange(3, f.len() as int));
        assert(r@ =~= spec_dir_prefix(ctrl@) + "fan"@ + f.subrange(3, f.len() as int)
            + "_input"@);
    }
    Some(r)
}

/// The label sibling of a temperature input file: the trailing `input`
/// segment is replaced by `label`.  A path that does not end in `input`
/// is left as it is.
pub open spec fn spec_label_path(s: Seq<char>) -> Seq<char> {
    if s.len() >= 5 && s.subrange(s.len() - 5, s.len() as int) == "input"@ {
        s.subrange(0, s.len() - 5) + "label"@
    } else {
        s
    }
}

pub fn label_path_for(path: &str) -> (r: String)
    ensures
        r@ == spec_label_path(path@),
{
    let n = path.unicode_len();
    proof {
        reveal_strlit("input");
    }
    if n < 5 {
        return String::from_str(path);
    }
    let ghost tail = path@.subrange(n - 5, n as int);
    proof {
        assert(tail[0] == path@[n - 5]);
        assert(tail[1] == path@[n - 4]);
        assert(tail[2] == path@[n - 3]);
        assert(tail[3] == path@[n - 2]);
        assert(tail[4] == path@[n - 1]);
    }
    if path.get_char(n - 5) == 'i' && path.get_char(n - 4) == 'n' && path.get_char(n - 3) == 'p'
        && path.get_char(n - 2) == 'u' && path.get_char(n - 1) == 't' {
        proof {
            assert(tail =~= "input"@);
        }
        let mut r = String::from_str(path.substring_char(0, n - 5));
        r.append("label");
        r
    } else {
        proof {
            assert(tail != "input"@);
        }
        String::from_str(path)
    }
}

} // verus!
