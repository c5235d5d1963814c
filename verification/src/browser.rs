//! The browser classifier: an ordered cascade of matchers, each a cheap
//! literal guard and a `token/major.minor` version pattern. The order is
//! load-bearing, because vendors' strings overlap: Opera and Edge strings
//! also carry Chrome tokens, Android and mobile Safari strings carry Safari
//! tokens.

use vstd::prelude::*;

use crate::text::{
    contains_lit, contains_str, find_lit2_version, find_lit_version, lit2_version_vals,
    lit_version_vals, vals_fit, version_opt_matches,
};

verus! {

#[derive(Clone, Debug, PartialEq)]
pub enum BrowserFamily {
    Android,
    Chrome,
    Edge,
    Firefox,
    Opera,
    Safari,
    MobileSafari,
    Other,
}

/// Stable display name of a browser family.
pub open spec fn spec_family_name(f: BrowserFamily) -> Seq<char> {
    match f {
        BrowserFamily::Android => "Android"@,
        BrowserFamily::Chrome => "Chrome"@,
        BrowserFamily::Edge => "Edge"@,
        BrowserFamily::Firefox => "Firefox"@,
        BrowserFamily::Opera => "Opera"@,
        BrowserFamily::Safari => "Safari"@,
        BrowserFamily::MobileSafari => "MobileSafari"@,
        BrowserFamily::Other => "Other"@,
    }
}

impl BrowserFamily {
    /// Whether the family identifies a browser on a hand-held device.
    pub fn is_mobile(&self) -> (r: bool)
        ensures
            r == (*self is Android || *self is MobileSafari),
    {
        match *self {
            BrowserFamily::Android => true,
            BrowserFamily::MobileSafari => true,
            _ => false,
        }
    }

    /// The family's stable display name.
    pub fn display_name(&self) -> (r: String)
        ensures
            r@ == spec_family_name(*self),
    {
        match *self {
            BrowserFamily::Android => "Android".to_owned(),
            BrowserFamily::Chrome => "Chrome".to_owned(),
            BrowserFamily::Edge => "Edge".to_owned(),
            BrowserFamily::Firefox => "Firefox".to_owned(),
            BrowserFamily::Opera => "Opera".to_owned(),
            BrowserFamily::Safari => "Safari".to_owned(),
            BrowserFamily::MobileSafari => "MobileSafari".to_owned(),
            BrowserFamily::Other => "Other".to_owned(),
        }
    }
}

#[derive(Clone, Debug, PartialEq)]
pub struct Browser {
    pub family: BrowserFamily,
    pub major_version: i8,
    pub minor_version: i8,
}

// ---------------------------------------------------------------------------
// The matchers, in cascade order
// ---------------------------------------------------------------------------

/// Opera: a cheap guard for an Opera token, then the shared version pattern.
pub open spec fn spec_match_opera(s: Seq<char>) -> Option<(int, int)> {
    if contains_lit(s, "Opera"@) || contains_lit(s, "OPR"@) {
        lit_version_vals(s, "Version/"@, '.')
    } else {
        None
    }
}

/// Edge: its own version token. Must run before Chrome, because Edge strings
/// also carry a Chrome token.
pub open spec fn spec_match_edge(s: Seq<char>) -> Option<(int, int)> {
    lit_version_vals(s, "Edge/"@, '.')
}

/// Android web view: an Android guard, then the shared version pattern.
pub open spec fn spec_match_android(s: Seq<char>) -> Option<(int, int)> {
    if contains_lit(s, "Android"@) {
        lit_version_vals(s, "Version/"@, '.')
    } else {
        None
    }
}

/// Chrome or Chromium, under its own version token.
pub open spec fn spec_match_chrome(s: Seq<char>) -> Option<(int, int)> {
    lit2_version_vals(s, "Chromium/"@, "Chrome/"@, '.')
}

/// Firefox, under its own version token.
pub open spec fn spec_match_firefox(s: Seq<char>) -> Option<(int, int)> {
    lit_version_vals(s, "Firefox/"@, '.')
}

/// Mobile Safari: both a Safari and a Mobile token, then the version pattern.
pub open spec fn spec_match_mobile_safari(s: Seq<char>) -> Option<(int, int)> {
    if contains_lit(s, "Safari"@) && contains_lit(s, "Mobile/"@) {
        lit_version_vals(s, "Version/"@, '.')
    } else {
        None
    }
}

/// Desktop Safari: a Safari token without a Mobile token.
pub open spec fn spec_match_safari(s: Seq<char>) -> Option<(int, int)> {
    if contains_lit(s, "Safari"@) && !contains_lit(s, "Mobile/"@) {
        lit_version_vals(s, "Version/"@, '.')
    } else {
        None
    }
}

/// The whole cascade: the first matcher that succeeds names the family and
/// supplies the captured version values.
pub open spec fn spec_browser(s: Seq<char>) -> Option<(BrowserFamily, int, int)> {
    match spec_match_opera(s) {
        Some(v) => Some((BrowserFamily::Opera, v.0, v.1)),
        None => match spec_match_edge(s) {
            Some(v) => Some((BrowserFamily::Edge, v.0, v.1)),
            None => match spec_match_android(s) {
                Some(v) => Some((BrowserFamily::Android, v.0, v.1)),
                None => match spec_match_chrome(s) {
                    Some(v) => Some((BrowserFamily::Chrome, v.0, v.1)),
                    None => match spec_match_firefox(s) {
                        Some(v) => Some((BrowserFamily::Firefox, v.0, v.1)),
                        None => match spec_match_mobile_safari(s) {
                            Some(v) => Some((BrowserFamily::MobileSafari, v.0, v.1)),
                            None => match spec_match_safari(s) {
                                Some(v) => Some((BrowserFamily::Safari, v.0, v.1)),
                                None => None,
                            },
                        },
                    },
                },
            },
        },
    }
}

/// The version values of the cascade's result fit the 8-bit version fields.
/// A captured value beyond that range is a fatal classification error, not a
/// silent wrap, so the classifier requires it away.
pub open spec fn browser_fits(v: Option<(BrowserFamily, int, int)>) -> bool {
    match v {
        Some(t) => t.1 <= 127 && t.2 <= 127,
        None => true,
    }
}

/// The executable record `r` agrees with the specified cascade result `v`.
pub open spec fn browser_opt_matches(r: Option<Browser>, v: Option<(BrowserFamily, int, int)>) -> bool {
    match (r, v) {
        (Option::None, Option::None) => true,
        (Option::Some(b), Option::Some(t)) => b.family == t.0 && b.major_version == t.1
            && b.minor_version == t.2,
        _ => false,
    }
}

impl Browser {
    pub fn new(family: BrowserFamily, versions: (i8, i8)) -> (r: Browser)
        ensures
            r.family == family,
            r.major_version == versions.0,
            r.minor_version == versions.1,
    {
        Browser { family, major_version: versions.0, minor_version: versions.1 }
    }

    /// Runs the cascade and returns the first match, or `None` when no
    /// matcher succeeds. The precondition rules out exactly the strings on
    /// which the deciding matcher captures a version beyond the 8-bit range:
    /// such a capture is a fatal classification error, never a silent wrap.
    pub fn parse(ua: &str) -> (r: Option<Browser>)
        requires
            browser_fits(spec_browser(ua@)),
        ensures
            browser_opt_matches(r, spec_browser(ua@)),
    {
        if let Some(v) = Self::match_opera(ua) {
            return Some(Browser::new(BrowserFamily::Opera, v));
        }
        if let Some(v) = Self::match_edge(ua) {
            return Some(Browser::new(BrowserFamily::Edge, v));
        }
        if let Some(v) = Self::match_android(ua) {
            return Some(Browser::new(BrowserFamily::Android, v));
        }
        if let Some(v) = Self::match_chrome(ua) {
            return Some(Browser::new(BrowserFamily::Chrome, v));
        }
        if let Some(v) = Self::match_firefox(ua) {
            return Some(Browser::new(BrowserFamily::Firefox, v));
        }
        if let Some(v) = Self::match_mobile_safari(ua) {
            return Some(Browser::new(BrowserFamily::MobileSafari, v));
        }
        if let Some(v) = Self::match_safari(ua) {
            return Some(Browser::new(BrowserFamily::Safari, v));
        }
        None
    }

    pub fn match_opera(ua: &str) -> (r: Option<(i8, i8)>)
        requires
            vals_fit(spec_match_opera(ua@)),
        ensures
            version_opt_matches(r, spec_match_opera(ua@)),
    {
        if !contains_str(ua, "Opera") && !contains_str(ua, "OPR") {
            return None;
        }
        find_lit_version(ua, "Version/", '.')
    }

    pub fn match_edge(ua: &str) -> (r: Option<(i8, i8)>)
        requires
            vals_fit(spec_match_edge(ua@)),
        ensures
            version_opt_matches(r, spec_match_edge(ua@)),
    {
        find_lit_version(ua, "Edge/", '.')
    }

    pub fn match_android(ua: &str) -> (r: Option<(i8, i8)>)
        requires
            vals_fit(spec_match_android(ua@)),
        ensures
            version_opt_matches(r, spec_match_android(ua@)),
    {
        if !contains_str(ua, "Android") {
            return None;
        }
        find_lit_version(ua, "Version/", '.')
    }

    pub fn match_chrome(ua: &str) -> (r: Option<(i8, i8)>)
        requires
            vals_fit(spec_match_chrome(ua@)),
        ensures
            version_opt_matches(r, spec_match_chrome(ua@)),
    {
        find_lit2_version(ua, "Chromium/", "Chrome/", '.')
    }

    pub fn match_firefox(ua: &str) -> (r: Option<(i8, i8)>)
        requires
            vals_fit(spec_match_firefox(ua@)),
        ensures
            version_opt_matches(r, spec_match_firefox(ua@)),
    {
        find_lit_version(ua, "Firefox/", '.')
    }

    pub fn match_mobile_safari(ua: &str) -> (r: Option<(i8, i8)>)
        requires
            vals_fit(spec_match_mobile_safari(ua@)),
        ensures
            version_opt_matches(r, spec_match_mobile_safari(ua@)),
    {
        if !contains_str(ua, "Safari") {
            return None;
        }
        if !contains_str(ua, "Mobile/") {
            return None;
        }
        find_lit_version(ua, "Version/", '.')
    }

    pub fn match_safari(ua: &str) -> (r: Option<(i8, i8)>)
        requires
            vals_fit(spec_match_safari(ua@)),
        ensures
            version_opt_matches(r, spec_match_safari(ua@)),
    {
        if !contains_str(ua, "Safari") {
            return None;
        }
        if contains_str(ua, "Mobile/") {
            return None;
        }
        find_lit_version(ua, "Version/", '.')
    }
}

} // verus!
