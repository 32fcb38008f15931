//! Reading the kernel's module list: the precondition check wants to
//! know whether a supported sensor module is loaded.
//!
//! `/proc/modules` holds one module per line, the module name first,
//! separated from the rest by a space.

use vstd::prelude::*;
use vstd::string::StrSliceExecFns;
use vstd::string::StringExecFns;

verus! {

/// The index of the first occurrence of `c` in `s`, or -1 when absent.
pub open spec fn find_char(s: Seq<char>, c: char) -> int
    decreases s.len(),
{
    if s.len() == 0 {
        -1
    } else if s[0] == c {
        0
    } else if find_char(s.skip(1), c) == -1 {
        -1
    } else {
        1 + find_char(s.skip(1), c)
    }
}

proof fn lemma_find_char_at(s: Seq<char>, c: char, k: int)
    requires
        0 <= k < s.len(),
        s[k] == c,
        forall|j: int| 0 <= j < k ==> s[j] != c,
    ensures
        find_char(s, c) == k,
    decreases k,
{
    if k > 0 {
        assert(forall|j: int| 0 <= j < k - 1 ==> s.skip(1)[j] == s[j + 1]);
        lemma_find_char_at(s.skip(1), c, k - 1);
    }
}

proof fn lemma_find_char_none(s: Seq<char>, c: char)
    requires
        forall|j: int| 0 <= j < s.len() ==> s[j] != c,
    ensures
        find_char(s, c) == -1,
    decreases s.len(),
{
    if s.len() > 0 {
        assert(forall|j: int| 0 <= j < s.len() - 1 ==> s.skip(1)[j] == s[j + 1]);
        lemma_find_char_none(s.skip(1), c);
    }
}

/// The module name on one line: what stands before the first space.  A
/// line without a space names nothing.
pub open spec fn first_word(line: Seq<char>) -> Option<Seq<char>> {
    let p = find_char(line, ' ');
    if p >= 0 {
        Some(line.subrange(0, p))
    } else {
        None
    }
}

proof fn lemma_find_char_bounds(s: Seq<char>, c: char)
    ensures
        -1 <= find_char(s, c) < s.len(),
    decreases s.len(),
{
    if s.len() > 0 && s[0] != c {
        lemma_find_char_bounds(s.skip(1), c);
    }
}

/// The module names in a `/proc/modules` listing, line by line.
pub open spec fn spec_module_names(s: Seq<char>) -> Seq<Seq<char>>
    decreases s.len(),
    via spec_module_names_dec
{
    if s.len() == 0 {
        Seq::empty()
    } else {
        let e = find_char(s, '\n');
        let line = if e >= 0 {
            s.subrange(0, e)
        } else {
            s
        };
        let rest = if e >= 0 {
            s.skip(e + 1)
        } else {
            Seq::<char>::empty()
        };
        let tail = spec_module_names(rest);
        match first_word(line) {
            Some(w) => seq![w] + tail,
            None => tail,
        }
    }
}

#[via_fn]
proof fn spec_module_names_dec(s: Seq<char>) {
    lemma_find_char_bounds(s, '\n');
}

/// Scans `s` for `c`, starting at `from`.
fn find_char_from(s: &str, c: char, from: usize) -> (r: Option<usize>)
    requires
        from <= s@.len(),
    ensures
        match r {
            Some(k) => {
                &&& from <= k < s@.len()
                &&& s@[k as int] == c
                &&& forall|j: int| from <= j < k ==> s@[j] != c
            },
            None => forall|j: int| from <= j < s@.len() ==> s@[j] != c,
        },
{
    let n = s.unicode_len();
    let mut k: usize = from;
    while k < n
        invariant
            from <= k <= n,
            n == s@.len(),
            forall|j: int| from <= j < k ==> s@[j] != c,
        decreases n - k,
    {
        if s.get_char(k) == c {
            return Some(k);
        }
        k += 1;
    }
    None
}

/// Splits a `/proc/modules` listing into the loaded module names, in
/// order.
pub fn parse_modules(content: &str) -> (r: Vec<String>)
    ensures
        r.deep_view() == spec_module_names(content@),
{
    let s = content;
    let n = s.unicode_len();
    let mut r: Vec<String> = Vec::new();
    let mut pos: usize = 0;
    proof {
        assert(s@.skip(0) =~= s@);
        assert(r.deep_view() =~= Seq::<Seq<char>>::empty());
    }
    while pos < n
        invariant
            pos <= n,
            n == s@.len(),
            spec_module_names(s@) == r.deep_view() + spec_module_names(s@.skip(pos as int)),
        decreases n - pos,
    {
        let ghost rem = s@.skip(pos as int);
        // Where the current line ends, and where the next one starts.
        let (line_end, next_pos): (usize, usize) = match find_char_from(s, '\n', pos) {
            Some(e) => (e, e + 1),
            None => (n, n),
        };
        proof {
            assert(forall|j: int| 0 <= j < rem.len() ==> rem[j] == s@[pos + j]);
            if line_end < n {
                lemma_find_char_at(rem, '\n', line_end - pos);
            } else {
                lemma_find_char_none(rem, '\n');
            }
        }
        let ghost line = if line_end < n {
            rem.subrange(0, line_end - pos)
        } else {
            rem
        };
        proof {
            assert(line =~= s@.subrange(pos as int, line_end as int));
        }
        // The module name is what stands before the first space of the
        // line, when the line has one.
        match find_char_from(s, ' ', pos) {
            Some(sp) => {
                if sp < line_end {
                    let w = s.substring_char(pos, sp);
                    r.push(String::from_str(w));
                    proof {
                        assert(forall|j: int| 0 <= j < line.len() ==> line[j] == s@[pos + j]);
                        lemma_find_char_at(line, ' ', sp - pos);
                        assert(w@ =~= line.subrange(0, sp - pos));
                    }
                } else {
                    proof {
                        assert(forall|j: int| 0 <= j < line.len() ==> line[j] == s@[pos + j]);
                        lemma_find_char_none(line, ' ');
                    }
                }
            },
            None => {
                proof {
                    assert(forall|j: int| 0 <= j < line.len() ==> line[j] == s@[pos + j]);
                    lemma_find_char_none(line, ' ');
                }
            },
        }
        proof {
            if line_end < n {
                assert(spec_module_names(rem) == match first_word(line) {
                    Some(w) => seq![w] + spec_module_names(s@.skip(next_pos as int)),
                    None => spec_module_names(s@.skip(next_pos as int)),
                }) by {
                    assert(rem.skip(line_end - pos + 1) =~= s@.skip(next_pos as int));
                }
            } else {
                assert(spec_module_names(rem) == match first_word(line) {
                    Some(w) => seq![w] + spec_module_names(s@.skip(next_pos as int)),
                    None => spec_module_names(s@.skip(next_pos as int)),
                }) by {
                    assert(s@.skip(next_pos as int) =~= Seq::<char>::empty());
                }
            }
            assert(spec_module_names(s@) =~= r.deep_view() + spec_module_names(
                s@.skip(next_pos as int),
            ));
        }
        pos = next_pos;
    }
    proof {
        assert(s@.skip(pos as int) =~= Seq::<char>::empty());
        assert(r.deep_view() =~= spec_module_names(s@));
    }
    r
}

/// Whether `modules` holds `module` by name.
pub fn is_module_present(module: &str, modules: &Vec<String>) -> (r: bool)
    ensures
        r == exists|i: int| 0 <= i < modules@.len() && modules@[i]@ == module@,
{
    let m = String::from_str(module);
    let mut i: usize = 0;
    while i < modules.len()
        invariant
            i <= modules@.len(),
            m@ == module@,
            forall|j: int| 0 <= j < i ==> modules@[j]@ != module@,
        decreases modules@.len() - i,
    {
        if modules[i] == m {
            return true;
        }
        i += 1;
    }
    false
}

/// Whether any module this engine supports is among the loaded ones.
pub fn any_supported_present(modules: &Vec<String>) -> (r: bool)
    ensures
        r == exists|i: int| 0 <= i < modules@.len() && modules@[i]@ == "nct6775"@,
{
    is_module_present("nct6775", modules)
}

} // verus!
