//! The platform classifier: an ordered cascade, most specific first. The
//! first two entries read a version out of the string (an iOS token and a
//! Mac OS X token, with `_`-separated version digits); the rest are literal
//! substring tests bound to fixed version pairs, ending in a descending
//! table of Windows build tokens and a final catch-all Windows entry.

use vstd::prelude::*;
use vstd::string::StrSliceExecFns;

use crate::text::{
    contains_lit, contains_str, digit_run_end, digit_run_len, extract_version, find_lit_version,
    first_pos, first_pos_from, lit_version_vals, match_at, match_at_exec, vals_fit, version_at,
    version_at_exec, version_major, version_minor, version_opt_matches,
};

verus! {

#[derive(Clone, Debug, PartialEq)]
pub enum PlatformName {
    Android,
    IOS,
    Linux,
    Mac,
    Windows,
}

#[derive(Debug, PartialEq)]
pub struct Platform {
    pub name: PlatformName,
    pub major_version: i8,
    pub minor_version: i8,
}

// ---------------------------------------------------------------------------
// The iOS token: "CPU ", optionally "iPhone ", then "OS ", a `_`-separated
// version, optionally one more `_` and a patch digit run, and finally the
// literal " like Mac OS X".
// ---------------------------------------------------------------------------

/// End of the minor digit run of the version at `q`.
pub open spec fn minor_end(s: Seq<char>, q: int) -> int {
    let m0 = q + digit_run_len(s, q) + 1;
    m0 + digit_run_len(s, m0)
}

/// After the minor run ends at `r`: either directly the closing literal, or
/// one `_` and a non-empty patch digit run, then the closing literal.
pub open spec fn ios_tail_at(s: Seq<char>, r: int) -> bool {
    if r < s.len() && s[r] == '_' && digit_run_len(s, r + 1) > 0 {
        match_at(s, " like Mac OS X"@, r + 1 + digit_run_len(s, r + 1))
    } else {
        match_at(s, " like Mac OS X"@, r)
    }
}

/// "OS " stands at `q`, followed by a `_`-separated version and the tail.
pub open spec fn ios_core_at(s: Seq<char>, q: int) -> bool {
    let u = q + "OS "@.len() as int;
    &&& match_at(s, "OS "@, q)
    &&& version_at(s, u, '_')
    &&& ios_tail_at(s, minor_end(s, u))
}

/// The whole iOS token stands at `p`. The "iPhone " part is optional.
pub open spec fn ios_at(s: Seq<char>, p: int) -> bool {
    let q0 = p + "CPU "@.len() as int;
    &&& match_at(s, "CPU "@, p)
    &&& {
        ||| match_at(s, "iPhone "@, q0) && ios_core_at(s, q0 + "iPhone "@.len() as int)
        ||| ios_core_at(s, q0)
    }
}

/// Start of the version digits of the iOS token at `p`; the branch that
/// consumes "iPhone " is preferred.
pub open spec fn ios_version_pos(s: Seq<char>, p: int) -> int {
    let q0 = p + "CPU "@.len() as int;
    if match_at(s, "iPhone "@, q0) && ios_core_at(s, q0 + "iPhone "@.len() as int) {
        q0 + "iPhone "@.len() as int + "OS "@.len() as int
    } else {
        q0 + "OS "@.len() as int
    }
}

pub open spec fn ios_pred(s: Seq<char>) -> spec_fn(int) -> bool {
    |p: int| ios_at(s, p)
}

/// The version captured at the leftmost occurrence of the iOS token.
pub open spec fn spec_match_ios(s: Seq<char>) -> Option<(int, int)> {
    match first_pos(s.len() as int, ios_pred(s)) {
        Some(p) => Some(
            (version_major(s, ios_version_pos(s, p)), version_minor(s, ios_version_pos(s, p))),
        ),
        None => None,
    }
}

/// The version captured at the leftmost Mac OS X token. Must run after the
/// iOS matcher, because iOS strings also carry the literal "like Mac OS X".
pub open spec fn spec_match_mac(s: Seq<char>) -> Option<(int, int)> {
    lit_version_vals(s, "Mac OS X "@, '_')
}

// ---------------------------------------------------------------------------
// The cascade
// ---------------------------------------------------------------------------

/// The literal-substring entries of the cascade, tried after the two
/// version-reading entries, in order: Android, Linux, a generic Macintosh,
/// the descending Windows build table, and the catch-all Windows entry.
pub open spec fn spec_platform_literals(s: Seq<char>) -> Option<(PlatformName, int, int)> {
    if contains_lit(s, "Android"@) {
        Some((PlatformName::Android, 0int, 0int))
    } else if contains_lit(s, "Linux"@) {
        Some((PlatformName::Linux, 0int, 0int))
    } else if contains_lit(s, "Macintosh"@) {
        Some((PlatformName::Mac, 0int, 0int))
    } else if contains_lit(s, "Windows XP"@) {
        Some((PlatformName::Windows, 5int, 1int))
    } else if contains_lit(s, "Windows NT 5.1"@) {
        Some((PlatformName::Windows, 5int, 1int))
    } else if contains_lit(s, "Windows NT 6.0"@) {
        Some((PlatformName::Windows, 6int, 0int))
    } else if contains_lit(s, "Windows NT 6.1"@) {
        Some((PlatformName::Windows, 7int, 0int))
    } else if contains_lit(s, "Windows NT 6.2"@) {
        Some((PlatformName::Windows, 8int, 0int))
    } else if contains_lit(s, "Windows NT 6.3"@) {
        Some((PlatformName::Windows, 8int, 1int))
    } else if contains_lit(s, "Windows NT 10.0"@) {
        Some((PlatformName::Windows, 10int, 0int))
    } else if contains_lit(s, "Windows"@) {
        Some((PlatformName::Windows, 0int, 0int))
    } else {
        None
    }
}

/// The whole cascade: iOS, then Mac OS X, then the literal table.
pub open spec fn spec_platform(s: Seq<char>) -> Option<(PlatformName, int, int)> {
    match spec_match_ios(s) {
        Some(v) => Some((PlatformName::IOS, v.0, v.1)),
        None => match spec_match_mac(s) {
            Some(v) => Some((PlatformName::Mac, v.0, v.1)),
            None => spec_platform_literals(s),
        },
    }
}

/// The version values of the cascade's result fit the 8-bit version fields.
pub open spec fn platform_fits(v: Option<(PlatformName, int, int)>) -> bool {
    match v {
        Some(t) => t.1 <= 127 && t.2 <= 127,
        None => true,
    }
}

/// The executable record `r` agrees with the specified cascade result `v`.
pub open spec fn platform_opt_matches(r: Option<Platform>, v: Option<(PlatformName, int, int)>) -> bool {
    match (r, v) {
        (Option::None, Option::None) => true,
        (Option::Some(b), Option::Some(t)) => b.name == t.0 && b.major_version == t.1
            && b.minor_version == t.2,
        _ => false,
    }
}

/// Decides whether the core of the iOS token stands at `q`, and reads its
/// version values.
fn ios_core_exec(s: &str, q: usize) -> (r: Option<(i8, i8)>)
    requires
        q <= s@.len(),
        ios_core_at(s@, q as int) ==> version_major(s@, q + "OS "@.len()) <= 127 && version_minor(
            s@,
            q + "OS "@.len(),
        ) <= 127,
    ensures
        r is Some <==> ios_core_at(s@, q as int),
        r matches Some(v) ==> v.0 == version_major(s@, q + "OS "@.len()) && v.1 == version_minor(
            s@,
            q + "OS "@.len(),
        ),
{
    let n = s.unicode_len();
    if !match_at_exec(s, "OS ", q) {
        return None;
    }
    let u = q + "OS ".unicode_len();
    if !version_at_exec(s, u, '_') {
        return None;
    }
    let e1 = digit_run_end(s, u);
    let m0 = e1 + 1;
    let e2 = digit_run_end(s, m0);
    proof {
        assert(e2 as int == minor_end(s@, u as int));
    }
    let tail_ok = if e2 < n && s.get_char(e2) == '_' {
        let e3 = digit_run_end(s, e2 + 1);
        if e3 > e2 + 1 {
            match_at_exec(s, " like Mac OS X", e3)
        } else {
            match_at_exec(s, " like Mac OS X", e2)
        }
    } else {
        match_at_exec(s, " like Mac OS X", e2)
    };
    if !tail_ok {
        return None;
    }
    Some(extract_version(s, u))
}

/// Decides whether the whole iOS token stands at `p`, and reads its version
/// values; the branch that consumes "iPhone " is preferred.
fn ios_at_exec(s: &str, p: usize) -> (r: Option<(i8, i8)>)
    requires
        p <= s@.len(),
        ios_at(s@, p as int) ==> version_major(s@, ios_version_pos(s@, p as int)) <= 127
            && version_minor(s@, ios_version_pos(s@, p as int)) <= 127,
    ensures
        r is Some <==> ios_at(s@, p as int),
        r matches Some(v) ==> v.0 == version_major(s@, ios_version_pos(s@, p as int)) && v.1
            == version_minor(s@, ios_version_pos(s@, p as int)),
{
    // Binds the character length so the position sums below stay in usize.
    let _n = s.unicode_len();
    if !match_at_exec(s, "CPU ", p) {
        return None;
    }
    let q0 = p + "CPU ".unicode_len();
    if match_at_exec(s, "iPhone ", q0) {
        let q1 = q0 + "iPhone ".unicode_len();
        let found = ios_core_exec(s, q1);
        if found.is_some() {
            return found;
        }
    }
    ios_core_exec(s, q0)
}

/// Finds the leftmost occurrence of the iOS token and reads its version.
fn match_ios(s: &str) -> (r: Option<(i8, i8)>)
    requires
        vals_fit(spec_match_ios(s@)),
    ensures
        version_opt_matches(r, spec_match_ios(s@)),
{
    let n = s.unicode_len();
    let ghost pred = ios_pred(s@);
    let mut p: usize = 0;
    while p < n
        invariant
            p <= n,
            n == s@.len(),
            pred == ios_pred(s@),
            vals_fit(spec_match_ios(s@)),
            first_pos_from(n as int, pred, 0) == first_pos_from(n as int, pred, p as int),
        decreases n - p,
    {
        let found = ios_at_exec(s, p);
        if let Some(v) = found {
            proof {
                assert(pred(p as int));
            }
            return Some(v);
        }
        proof {
            assert(!pred(p as int));
        }
        p += 1;
    }
    proof {
        assert(!pred(n as int));
    }
    None
}

impl Platform {
    pub fn new(name: PlatformName, major_version: i8, minor_version: i8) -> (r: Platform)
        ensures
            r.name == name,
            r.major_version == major_version,
            r.minor_version == minor_version,
    {
        Platform { name, major_version, minor_version }
    }

    /// Runs the cascade and returns the first match, or `None` when no entry
    /// matches. The precondition rules out exactly the strings on which the
    /// deciding entry captures a version beyond the 8-bit range: such a
    /// capture is a fatal classification error, never a silent wrap.
    pub fn parse(ua: &str) -> (r: Option<Platform>)
        requires
            platform_fits(spec_platform(ua@)),
        ensures
            platform_opt_matches(r, spec_platform(ua@)),
    {
        if let Some(v) = match_ios(ua) {
            return Some(Platform::new(PlatformName::IOS, v.0, v.1));
        }
        if let Some(v) = find_lit_version(ua, "Mac OS X ", '_') {
            return Some(Platform::new(PlatformName::Mac, v.0, v.1));
        }
        if contains_str(ua, "Android") {
            return Some(Platform::new(PlatformName::Android, 0, 0));
        }
        if contains_str(ua, "Linux") {
            return Some(Platform::new(PlatformName::Linux, 0, 0));
        }
        if contains_str(ua, "Macintosh") {
            return Some(Platform::new(PlatformName::Mac, 0, 0));
        }
        if contains_str(ua, "Windows XP") {
            return Some(Platform::new(PlatformName::Windows, 5, 1));
        }
        if contains_str(ua, "Windows NT 5.1") {
            return Some(Platform::new(PlatformName::Windows, 5, 1));
        }
        if contains_str(ua, "Windows NT 6.0") {
            return Some(Platform::new(PlatformName::Windows, 6, 0));
        }
        if contains_str(ua, "Windows NT 6.1") {
            return Some(Platform::new(PlatformName::Windows, 7, 0));
        }
        if contains_str(ua, "Windows NT 6.2") {
            return Some(Platform::new(PlatformName::Windows, 8, 0));
        }
        if contains_str(ua, "Windows NT 6.3") {
            return Some(Platform::new(PlatformName::Windows, 8, 1));
        }
        if contains_str(ua, "Windows NT 10.0") {
            return Some(Platform::new(PlatformName::Windows, 10, 0));
        }
        if contains_str(ua, "Windows") {
            return Some(Platform::new(PlatformName::Windows, 0, 0));
        }
        None
    }
}

} // verus!
