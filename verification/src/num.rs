//! Decimal parsing and formatting for the plain ASCII values that the
//! `hwmon` files hold: RPM readings, millidegree temperatures, and PWM
//! duty values.

use vstd::prelude::*;
use vstd::string::StrSliceExecFns;
use vstd::string::StringExecFns;

verus! {

pub open spec fn is_digit(c: char) -> bool {
    48 <= c as u32 <= 57
}

pub open spec fn digit_val(c: char) -> int {
    c as u32 - 48
}

pub open spec fn all_digits(s: Seq<char>) -> bool {
    forall|i: int| 0 <= i < s.len() ==> is_digit(#[trigger] s[i])
}

/// The value of a digit string read as a decimal number.
pub open spec fn digits_val(s: Seq<char>) -> int
    decreases s.len(),
{
    if s.len() == 0 {
        0
    } else {
        10 * digits_val(s.drop_last()) + digit_val(s.last())
    }
}

/// The sysfs values are newline-terminated; one trailing newline is
/// ignored.
pub open spec fn strip_newline(s: Seq<char>) -> Seq<char> {
    if s.len() > 0 && s.last() == '\n' {
        s.drop_last()
    } else {
        s
    }
}

/// An RPM reading: an unsigned decimal, with anything unreadable (empty,
/// non-digit, or out of range) counting as 0 RPM.
pub open spec fn spec_parse_rpm(s: Seq<char>) -> u32 {
    let t = strip_newline(s);
    if t.len() > 0 && all_digits(t) && digits_val(t) <= u32::MAX {
        digits_val(t) as u32
    } else {
        0
    }
}

/// A millidegree temperature: a signed decimal, with anything
/// unreadable substituting 0.
pub open spec fn spec_parse_millideg(s: Seq<char>) -> i64 {
    let t = strip_newline(s);
    if t.len() > 0 && t[0] == '-' {
        let d = t.skip(1);
        if d.len() > 0 && all_digits(d) && digits_val(d) <= i64::MAX {
            (-digits_val(d)) as i64
        } else {
            0
        }
    } else {
        if t.len() > 0 && all_digits(t) && digits_val(t) <= i64::MAX {
            digits_val(t) as i64
        } else {
            0
        }
    }
}

proof fn lemma_digits_val_nonneg(s: Seq<char>)
    requires
        all_digits(s),
    ensures
        digits_val(s) >= 0,
    decreases s.len(),
{
    if s.len() > 0 {
        assert(all_digits(s.drop_last())) by {
            assert(forall|i: int| 0 <= i < s.len() - 1 ==> s.drop_last()[i] == s[i]);
        }
        lemma_digits_val_nonneg(s.drop_last());
    }
}

/// Dropping trailing digits never increases the value.
proof fn lemma_digits_val_prefix_le(s: Seq<char>, i: int)
    requires
        all_digits(s),
        0 <= i <= s.len(),
    ensures
        digits_val(s.subrange(0, i)) <= digits_val(s),
    decreases s.len() - i,
{
    if i == s.len() {
        assert(s.subrange(0, i) =~= s);
    } else {
        lemma_digits_val_prefix_le(s, i + 1);
        let t = s.subrange(0, i + 1);
        assert(t.drop_last() =~= s.subrange(0, i));
        assert(all_digits(s.subrange(0, i))) by {
            assert(forall|j: int| 0 <= j < i ==> s.subrange(0, i)[j] == s[j]);
        }
        lemma_digits_val_nonneg(s.subrange(0, i));
        assert(digits_val(t) == 10 * digits_val(s.subrange(0, i)) + digit_val(t.last()));
    }
}

/// The decimal value of the character range `[from, to)` of `s`, or
/// `None` when the range holds a non-digit or the value does not fit.
fn digits_value(s: &str, from: usize, to: usize) -> (r: Option<u64>)
    requires
        from <= to <= s@.len(),
    ensures
        match r {
            Some(v) => {
                &&& all_digits(s@.subrange(from as int, to as int))
                &&& v == digits_val(s@.subrange(from as int, to as int))
            },
            None => !(all_digits(s@.subrange(from as int, to as int)) && digits_val(
                s@.subrange(from as int, to as int),
            ) <= u64::MAX),
        },
{
    let ghost whole = s@.subrange(from as int, to as int);
    let mut acc: u64 = 0;
    let mut i: usize = from;
    while i < to
        invariant
            from <= i <= to <= s@.len(),
            whole == s@.subrange(from as int, to as int),
            all_digits(s@.subrange(from as int, i as int)),
            acc == digits_val(s@.subrange(from as int, i as int)),
        decreases to - i,
    {
        let c = s.get_char(i);
        if c < '0' || c > '9' {
            proof {
                assert(whole[i - from] == s@[i as int]);
                assert(!is_digit(whole[i - from]));
            }
            return None;
        }
        let d: u32 = c as u32 - 48;
        let ghost pre = s@.subrange(from as int, i as int);
        let ghost cur = s@.subrange(from as int, i + 1 as int);
        proof {
            assert(cur.drop_last() =~= pre);
            assert(cur.last() == s@[i as int]);
            assert(digits_val(cur) == 10 * digits_val(pre) + digit_val(cur.last()));
        }
        if acc > (u64::MAX - d as u64) / 10 {
            proof {
                assert(10 * acc + d > u64::MAX);
                if all_digits(whole) && digits_val(whole) <= u64::MAX {
                    assert(all_digits(cur)) by {
                        assert(forall|j: int| 0 <= j < cur.len() ==> cur[j] == whole[j]);
                    }
                    assert(cur =~= whole.subrange(0, i + 1 - from));
                    lemma_digits_val_prefix_le(whole, i + 1 - from);
                    assert(false);
                }
            }
            return None;
        }
        acc = acc * 10 + d as u64;
        i += 1;
    }
    proof {
        assert(s@.subrange(from as int, i as int) =~= whole);
    }
    Some(acc)
}

/// Reads an RPM value as the kernel reports it: decimal ASCII with a
/// trailing newline; anything unreadable counts as 0 RPM.
pub fn parse_rpm(s: &str) -> (r: u32)
    ensures
        r == spec_parse_rpm(s@),
{
    let n = s.unicode_len();
    let end: usize = if n > 0 && s.get_char(n - 1) == '\n' {
        n - 1
    } else {
        n
    };
    proof {
        assert(s@.subrange(0, end as int) =~= strip_newline(s@));
    }
    if end == 0 {
        return 0;
    }
    match digits_value(s, 0, end) {
        Some(v) => {
            if v <= u32::MAX as u64 {
                v as u32
            } else {
                0
            }
        },
        None => 0,
    }
}

/// Reads a millidegree temperature: an optionally negative decimal with
/// a trailing newline; anything unreadable substitutes 0.
pub fn parse_millideg(s: &str) -> (r: i64)
    ensures
        r == spec_parse_millideg(s@),
{
    let n = s.unicode_len();
    let end: usize = if n > 0 && s.get_char(n - 1) == '\n' {
        n - 1
    } else {
        n
    };
    proof {
        assert(s@.subrange(0, end as int) =~= strip_newline(s@));
    }
    if end == 0 {
        return 0;
    }
    let neg = s.get_char(0) == '-';
    let start: usize = if neg {
        1
    } else {
        0
    };
    if start == end {
        return 0;
    }
    proof {
        if neg {
            assert(s@.subrange(1, end as int) =~= strip_newline(s@).skip(1));
        }
    }
    match digits_value(s, start, end) {
        Some(v) => {
            if v <= i64::MAX as u64 {
                if neg {
                    -(v as i64)
                } else {
                    v as i64
                }
            } else {
                0
            }
        },
        None => 0,
    }
}

/// The decimal digit characters of a PWM duty value, without leading
/// zeros.
pub open spec fn spec_digit_char(d: int) -> char {
    if d == 0 {
        '0'
    } else if d == 1 {
        '1'
    } else if d == 2 {
        '2'
    } else if d == 3 {
        '3'
    } else if d == 4 {
        '4'
    } else if d == 5 {
        '5'
    } else if d == 6 {
        '6'
    } else if d == 7 {
        '7'
    } else if d == 8 {
        '8'
    } else {
        '9'
    }
}

pub open spec fn spec_fmt_u8(v: u8) -> Seq<char> {
    if v < 10 {
        seq![spec_digit_char(v as int)]
    } else if v < 100 {
        seq![spec_digit_char(v as int / 10), spec_digit_char(v as int % 10)]
    } else {
        seq![
            spec_digit_char(v as int / 100),
            spec_digit_char((v as int / 10) % 10),
            spec_digit_char(v as int % 10),
        ]
    }
}

/// Renders a duty value as the decimal ASCII that the control file
/// takes.
pub fn fmt_u8(v: u8) -> (r: String)
    ensures
        r@ == spec_fmt_u8(v),
{
    let ds = "0123456789";
    proof {
        reveal_strlit("0123456789");
        assert(vstd::string::is_ascii(ds)) by {
            assert(forall|i: int| 0 <= i < ds@.len() ==> (ds@[i] as u32) < 128);
        }
    }
    let mut r = String::new();
    if v >= 100 {
        let d = (v / 100) as usize;
        r.append(ds.substring_ascii(d, d + 1));
    }
    if v >= 10 {
        let d = ((v / 10) % 10) as usize;
        r.append(ds.substring_ascii(d, d + 1));
    }
    let d = (v % 10) as usize;
    r.append(ds.substring_ascii(d, d + 1));
    proof {
        assert(r@ =~= spec_fmt_u8(v));
    }
    r
}

} // verus!
