//! Character-level matching primitives shared by the three classifier
//! cascades: literal substring tests, and the `token` + `major.minor`
//! version pattern, all specified over `Seq<char>`.

use vstd::prelude::*;
use vstd::string::StrSliceExecFns;

verus! {

// ---------------------------------------------------------------------------
// Literal occurrence
// ---------------------------------------------------------------------------

/// The literal `lit` occurs in `s` starting at position `p`.
pub open spec fn match_at(s: Seq<char>, lit: Seq<char>, p: int) -> bool {
    &&& 0 <= p
    &&& p + lit.len() <= s.len()
    &&& s.subrange(p, p + lit.len() as int) == lit
}

/// The literal `lit` occurs somewhere in `s`.
pub open spec fn contains_lit(s: Seq<char>, lit: Seq<char>) -> bool {
    exists|p: int| match_at(s, lit, p)
}

/// Decides whether `lit` occurs in `s` starting at position `p`.
pub fn match_at_exec(s: &str, lit: &str, p: usize) -> (r: bool)
    ensures
        r == match_at(s@, lit@, p as int),
{
    let n = s.unicode_len();
    let m = lit.unicode_len();
    if p > n || m > n - p {
        return false;
    }
    let mut j: usize = 0;
    while j < m
        invariant
            j <= m,
            p + m <= n,
            n == s@.len(),
            m == lit@.len(),
            forall|k: int| 0 <= k < j ==> s@[p + k] == lit@[k],
        decreases m - j,
    {
        let cs = s.get_char(p + j);
        let cl = lit.get_char(j);
        if cs != cl {
            proof {
                assert(s@.subrange(p as int, p + m)[j as int] == s@[p + j]);
            }
            return false;
        }
        j += 1;
    }
    proof {
        assert(s@.subrange(p as int, p + m) =~= lit@);
    }
    true
}

/// Decides whether `lit` occurs anywhere in `s`.
pub fn contains_str(s: &str, lit: &str) -> (r: bool)
    ensures
        r == contains_lit(s@, lit@),
{
    let n = s.unicode_len();
    let m = lit.unicode_len();
    if m == 0 {
        proof {
            assert(s@.subrange(0, 0) =~= lit@);
            assert(match_at(s@, lit@, 0));
        }
        return true;
    }
    let mut p: usize = 0;
    while p < n
        invariant
            p <= n,
            n == s@.len(),
            m == lit@.len(),
            m >= 1,
            forall|q: int| 0 <= q < p ==> !match_at(s@, lit@, q),
        decreases n - p,
    {
        if match_at_exec(s, lit, p) {
            return true;
        }
        p += 1;
    }
    false
}

// ---------------------------------------------------------------------------
// Decimal digits
// ---------------------------------------------------------------------------

/// A character is a decimal digit.
pub open spec fn is_digit(c: char) -> bool {
    '0' <= c && c <= '9'
}

/// Numeric value of one decimal digit.
pub open spec fn digit_value(c: char) -> int {
    c as int - '0' as int
}

/// Numeric value of a sequence of decimal digits, most significant first.
/// Leading zeroes are allowed and do not change the value.
pub open spec fn digits_value(s: Seq<char>) -> int
    decreases s.len(),
{
    if s.len() == 0 {
        0
    } else {
        10 * digits_value(s.drop_last()) + digit_value(s.last())
    }
}

/// Length of the maximal run of decimal digits in `s` starting at `p`.
pub open spec fn digit_run_len(s: Seq<char>, p: int) -> int
    decreases s.len() - p,
{
    if p < 0 || p >= s.len() || !is_digit(s[p]) {
        0
    } else {
        1 + digit_run_len(s, p + 1)
    }
}

pub proof fn lemma_digit_run_in_range(s: Seq<char>, p: int)
    requires
        0 <= p,
    ensures
        0 <= digit_run_len(s, p),
        p + digit_run_len(s, p) <= s.len() || p >= s.len(),
        forall|i: int| p <= i < p + digit_run_len(s, p) ==> is_digit(s[i]),
    decreases s.len() - p,
{
    if 0 <= p < s.len() && is_digit(s[p]) {
        lemma_digit_run_in_range(s, p + 1);
    }
}

pub proof fn lemma_digits_value_nonneg(t: Seq<char>)
    requires
        forall|i: int| 0 <= i < t.len() ==> is_digit(t[i]),
    ensures
        digits_value(t) >= 0,
    decreases t.len(),
{
    if t.len() > 0 {
        lemma_digits_value_nonneg(t.drop_last());
    }
}

/// Appending further digits never lowers the value of a digit string.
pub proof fn lemma_digits_value_monotone(s: Seq<char>, from: int, mid: int, to: int)
    requires
        0 <= from <= mid <= to <= s.len(),
        forall|i: int| from <= i < to ==> is_digit(s[i]),
    ensures
        digits_value(s.subrange(from, mid)) <= digits_value(s.subrange(from, to)),
    decreases to - mid,
{
    if mid < to {
        let shorter = s.subrange(from, mid);
        let longer = s.subrange(from, mid + 1);
        assert(longer.drop_last() =~= shorter);
        assert(longer.last() == s[mid]);
        lemma_digits_value_nonneg(shorter);
        lemma_digits_value_monotone(s, from, mid + 1, to);
    }
}

/// Returns the end of the maximal digit run in `s` starting at `q`.
pub fn digit_run_end(s: &str, q: usize) -> (r: usize)
    requires
        q <= s@.len(),
    ensures
        q <= r <= s@.len(),
        r as int == q + digit_run_len(s@, q as int),
{
    let n = s.unicode_len();
    let mut r = q;
    while r < n
        invariant
            q <= r <= n,
            n == s@.len(),
            digit_run_len(s@, q as int) == (r - q) + digit_run_len(s@, r as int),
        ensures
            q <= r <= n,
            digit_run_len(s@, q as int) == r - q,
        decreases n - r,
    {
        let c = s.get_char(r);
        let u = c as u32;
        if u < 48 || u > 57 {
            proof {
                assert(!is_digit(s@[r as int]));
            }
            break;
        }
        proof {
            assert(is_digit(s@[r as int]));
        }
        r += 1;
    }
    r
}

/// Parses the digit run `s[from..to]` as a non-negative signed 8-bit value.
/// Returns `None` when the numeric value does not fit.
pub fn parse_digits_i8(s: &str, from: usize, to: usize) -> (r: Option<i8>)
    requires
        from <= to <= s@.len(),
        forall|i: int| from <= i < to ==> is_digit(s@[i]),
    ensures
        r matches Some(v) ==> 0 <= v && v == digits_value(s@.subrange(from as int, to as int)),
        r is None ==> digits_value(s@.subrange(from as int, to as int)) > 127,
{
    let mut acc: u32 = 0;
    let mut i = from;
    while i < to
        invariant
            from <= i <= to,
            to <= s@.len(),
            forall|k: int| from <= k < to ==> is_digit(s@[k]),
            acc <= 127,
            acc as int == digits_value(s@.subrange(from as int, i as int)),
        decreases to - i,
    {
        let c = s.get_char(i);
        let u = c as u32;
        proof {
            assert(is_digit(s@[i as int]));
        }
        let d = u - 48;
        let next = acc * 10 + d;
        proof {
            let prefix = s@.subrange(from as int, i as int);
            let extended = s@.subrange(from as int, i + 1);
            assert(extended.drop_last() =~= prefix);
            assert(extended.last() == s@[i as int]);
        }
        if next > 127 {
            proof {
                lemma_digits_value_monotone(s@, from as int, i + 1, to as int);
            }
            return None;
        }
        acc = next;
        i += 1;
    }
    proof {
        lemma_digits_value_nonneg(s@.subrange(from as int, to as int));
    }
    Some(acc as i8)
}

// ---------------------------------------------------------------------------
// Leftmost position satisfying a predicate
// ---------------------------------------------------------------------------

/// The smallest position in `p ..= len` that satisfies `pred`, if any.
pub open spec fn first_pos_from(len: int, pred: spec_fn(int) -> bool, p: int) -> Option<int>
    decreases len - p,
{
    if p < 0 || p > len {
        None
    } else if pred(p) {
        Some(p)
    } else if p == len {
        None
    } else {
        first_pos_from(len, pred, p + 1)
    }
}

/// The smallest position in `0 ..= len` that satisfies `pred`, if any.
pub open spec fn first_pos(len: int, pred: spec_fn(int) -> bool) -> Option<int> {
    first_pos_from(len, pred, 0)
}

// ---------------------------------------------------------------------------
// The version pattern: a literal token, then `major` digits, a separator
// character, and `minor` digits
// ---------------------------------------------------------------------------

/// At position `q` in `s` stands a version: one or more digits, then `sep`,
/// then one or more digits.
pub open spec fn version_at(s: Seq<char>, q: int, sep: char) -> bool {
    let a = digit_run_len(s, q);
    &&& a > 0
    &&& q + a < s.len()
    &&& s[q + a] == sep
    &&& digit_run_len(s, q + a + 1) > 0
}

/// Value of the major component of the version at `q` (the digit run at `q`).
pub open spec fn version_major(s: Seq<char>, q: int) -> int {
    digits_value(s.subrange(q, q + digit_run_len(s, q)))
}

/// Value of the minor component of the version at `q` (the digit run after
/// the separator).
pub open spec fn version_minor(s: Seq<char>, q: int) -> int {
    let m0 = q + digit_run_len(s, q) + 1;
    digits_value(s.subrange(m0, m0 + digit_run_len(s, m0)))
}

/// The literal `lit` stands at `p`, followed by a version.
pub open spec fn lit_version_at(s: Seq<char>, lit: Seq<char>, sep: char, p: int) -> bool {
    match_at(s, lit, p) && version_at(s, p + lit.len(), sep)
}

/// One of the literals `l1`, `l2` stands at `p`, followed by a version.
pub open spec fn lit2_version_pred(s: Seq<char>, l1: Seq<char>, l2: Seq<char>, sep: char) -> spec_fn(
    int,
) -> bool {
    |p: int| lit_version_at(s, l1, sep, p) || lit_version_at(s, l2, sep, p)
}

/// The major and minor values captured at the leftmost occurrence of the
/// pattern "`l1` or `l2`, then a version". Where both literals could stand at
/// that position, `l1` wins.
pub open spec fn lit2_version_vals(s: Seq<char>, l1: Seq<char>, l2: Seq<char>, sep: char) -> Option<
    (int, int),
> {
    match first_pos(s.len() as int, lit2_version_pred(s, l1, l2, sep)) {
        Some(p) => {
            let q = if lit_version_at(s, l1, sep, p) {
                p + l1.len() as int
            } else {
                p + l2.len() as int
            };
            Some((version_major(s, q), version_minor(s, q)))
        },
        None => None,
    }
}

/// The version values captured at the leftmost occurrence of `lit` followed
/// by a version.
pub open spec fn lit_version_vals(s: Seq<char>, lit: Seq<char>, sep: char) -> Option<(int, int)> {
    lit2_version_vals(s, lit, lit, sep)
}

/// The pattern "`lit`, then a version" occurs somewhere in `s`.
pub open spec fn lit_version_matches(s: Seq<char>, lit: Seq<char>, sep: char) -> bool {
    lit_version_vals(s, lit, sep) is Some
}

/// Captured version values fit the signed 8-bit version fields.
pub open spec fn vals_fit(v: Option<(int, int)>) -> bool {
    match v {
        Some(t) => t.0 <= 127 && t.1 <= 127,
        None => true,
    }
}

/// The executable result `r` agrees with the specified capture values `v`.
pub open spec fn version_opt_matches(r: Option<(i8, i8)>, v: Option<(int, int)>) -> bool {
    match (r, v) {
        (Option::None, Option::None) => true,
        (Option::Some(a), Option::Some(b)) => a.0 == b.0 && a.1 == b.1,
        _ => false,
    }
}

/// Decides whether a version stands at `q`.
pub fn version_at_exec(s: &str, q: usize, sep: char) -> (r: bool)
    requires
        q <= s@.len(),
    ensures
        r == version_at(s@, q as int, sep),
{
    let n = s.unicode_len();
    let e1 = digit_run_end(s, q);
    if e1 == q || e1 == n {
        return false;
    }
    let c = s.get_char(e1);
    if c != sep {
        return false;
    }
    let e2 = digit_run_end(s, e1 + 1);
    e2 > e1 + 1
}

/// Reads the version values at `q`: the digit run at `q` as the major value
/// and the digit run after the separator as the minor value.
pub fn extract_version(s: &str, q: usize) -> (r: (i8, i8))
    requires
        q <= s@.len(),
        q + digit_run_len(s@, q as int) < s@.len(),
        version_major(s@, q as int) <= 127,
        version_minor(s@, q as int) <= 127,
    ensures
        r.0 == version_major(s@, q as int),
        r.1 == version_minor(s@, q as int),
{
    let n = s.unicode_len();
    let e1 = digit_run_end(s, q);
    proof {
        assert(e1 < n);
    }
    let m0 = e1 + 1;
    let e2 = digit_run_end(s, m0);
    proof {
        lemma_digit_run_in_range(s@, q as int);
        lemma_digit_run_in_range(s@, m0 as int);
    }
    let major = match parse_digits_i8(s, q, e1) {
        Some(v) => v,
        None => {
            return vstd::pervasive::unreached();
        },
    };
    let minor = match parse_digits_i8(s, m0, e2) {
        Some(v) => v,
        None => {
            return vstd::pervasive::unreached();
        },
    };
    (major, minor)
}

/// Reads the version at `q`, if one stands there.
pub fn scan_version(s: &str, q: usize, sep: char) -> (r: Option<(i8, i8)>)
    requires
        q <= s@.len(),
        version_at(s@, q as int, sep) ==> version_major(s@, q as int) <= 127 && version_minor(
            s@,
            q as int,
        ) <= 127,
    ensures
        r is Some <==> version_at(s@, q as int, sep),
        r matches Some(v) ==> v.0 == version_major(s@, q as int) && v.1 == version_minor(
            s@,
            q as int,
        ),
{
    if !version_at_exec(s, q, sep) {
        return None;
    }
    Some(extract_version(s, q))
}

/// Finds the leftmost occurrence of "`l1` or `l2`, then a version" in `s` and
/// returns the captured version values; `None` when the pattern does not
/// occur. Callers rule out captures that overflow the 8-bit version fields.
pub fn find_lit2_version(s: &str, l1: &str, l2: &str, sep: char) -> (r: Option<(i8, i8)>)
    requires
        vals_fit(lit2_version_vals(s@, l1@, l2@, sep)),
    ensures
        version_opt_matches(r, lit2_version_vals(s@, l1@, l2@, sep)),
{
    let n = s.unicode_len();
    let ghost pred = lit2_version_pred(s@, l1@, l2@, sep);
    let mut p: usize = 0;
    while p < n
        invariant
            p <= n,
            n == s@.len(),
            pred == lit2_version_pred(s@, l1@, l2@, sep),
            vals_fit(lit2_version_vals(s@, l1@, l2@, sep)),
            first_pos_from(n as int, pred, 0) == first_pos_from(n as int, pred, p as int),
        decreases n - p,
    {
        if match_at_exec(s, l1, p) {
            let q = p + l1.unicode_len();
            let found = scan_version(s, q, sep);
            if let Some(v) = found {
                proof {
                    assert(pred(p as int));
                }
                return Some(v);
            }
        }
        if match_at_exec(s, l2, p) {
            let q = p + l2.unicode_len();
            let found = scan_version(s, q, sep);
            if let Some(v) = found {
                proof {
                    assert(pred(p as int));
                }
                return Some(v);
            }
        }
        proof {
            assert(!pred(p as int));
        }
        p += 1;
    }
    proof {
        assert(!pred(n as int));
    }
    None
}

/// Finds the leftmost occurrence of "`lit`, then a version" in `s`.
pub fn find_lit_version(s: &str, lit: &str, sep: char) -> (r: Option<(i8, i8)>)
    requires
        vals_fit(lit_version_vals(s@, lit@, sep)),
    ensures
        version_opt_matches(r, lit_version_vals(s@, lit@, sep)),
{
    find_lit2_version(s, lit, lit, sep)
}

} // verus!
