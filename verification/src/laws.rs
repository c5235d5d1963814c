//! The guarantees that hold of every classification, stated and proved over
//! the cascade specifications and the aggregator's contract.

use vstd::prelude::*;

use crate::bot::spec_bot;
use crate::browser::{spec_browser, spec_match_edge, spec_match_opera};
use crate::platform::{spec_match_ios, spec_match_mac, spec_platform, PlatformName};
use crate::text::contains_lit;
use crate::user_agent::{ua_matches_spec, UserAgent};

verus! {

/// Classification is deterministic: two classifications of the same string
/// carry equal records and the same source text.
pub proof fn lemma_classify_deterministic(r1: UserAgent, r2: UserAgent, s: Seq<char>)
    requires
        ua_matches_spec(r1, s),
        ua_matches_spec(r2, s),
    ensures
        r1.bot == r2.bot,
        r1.browser == r2.browser,
        r1.platform == r2.platform,
        r1.source@ == r2.source@,
{
}

/// A classification never carries a bot record and a browser record at the
/// same time.
pub proof fn lemma_bot_browser_exclusive(r: UserAgent, s: Seq<char>)
    requires
        ua_matches_spec(r, s),
    ensures
        !(r.bot is Some && r.browser is Some),
{
}

/// Bot priority: where the bot cascade recognizes the string, the
/// classification carries the bot record and withholds the browser record,
/// whatever browser tokens the string also carries.
pub proof fn lemma_bot_priority(r: UserAgent, s: Seq<char>)
    requires
        ua_matches_spec(r, s),
        spec_bot(s) is Some,
    ensures
        r.bot is Some,
        r.browser is None,
{
}

/// Order sensitivity: where the Edge matcher succeeds, the browser cascade
/// yields Opera or Edge — never Chrome, however many Chrome tokens the
/// string carries.
pub proof fn lemma_edge_beats_chrome(s: Seq<char>)
    requires
        spec_match_edge(s) is Some,
    ensures
        spec_browser(s) matches Some(v) && (v.0 is Opera || v.0 is Edge),
{
}

/// Order sensitivity: where the Opera matcher succeeds, the browser cascade
/// yields Opera with the version the Opera matcher captured, whatever other
/// browser tokens the string carries.
pub proof fn lemma_opera_first(s: Seq<char>)
    requires
        spec_match_opera(s) is Some,
    ensures
        spec_browser(s) matches Some(v) && v.0 is Opera && Some((v.1, v.2)) == spec_match_opera(s),
{
}

/// Platform specificity: where the iOS token matches, the platform cascade
/// yields IOS with the captured version — never Mac, though every iOS string
/// also carries the literal "like Mac OS X".
pub proof fn lemma_ios_beats_mac(s: Seq<char>)
    requires
        spec_match_ios(s) is Some,
    ensures
        spec_platform(s) matches Some(v) && v.0 is IOS && Some((v.1, v.2)) == spec_match_ios(s),
{
}

/// Platform specificity, the other half: a Mac OS X version token without an
/// iOS token yields Mac with the captured version.
pub proof fn lemma_mac_without_ios(s: Seq<char>)
    requires
        spec_match_ios(s) is None,
        spec_match_mac(s) is Some,
    ensures
        spec_platform(s) matches Some(v) && v.0 is Mac && Some((v.1, v.2)) == spec_match_mac(s),
{
}

/// Windows fallback: a string carrying the NT 6.3 build token, and nothing
/// that an earlier platform entry matches, classifies as Windows 8.1.
pub proof fn lemma_windows_nt_63(s: Seq<char>)
    requires
        contains_lit(s, "Windows NT 6.3"@),
        spec_match_ios(s) is None,
        spec_match_mac(s) is None,
        !contains_lit(s, "Android"@),
        !contains_lit(s, "Linux"@),
        !contains_lit(s, "Macintosh"@),
        !contains_lit(s, "Windows XP"@),
        !contains_lit(s, "Windows NT 5.1"@),
        !contains_lit(s, "Windows NT 6.0"@),
        !contains_lit(s, "Windows NT 6.1"@),
        !contains_lit(s, "Windows NT 6.2"@),
    ensures
        spec_platform(s) == Some((PlatformName::Windows, 8int, 1int)),
{
}

/// Windows catch-all: a string carrying any Windows token that no listed
/// build entry and no earlier platform entry matches classifies as Windows
/// with version (0,0) rather than as "no match".
pub proof fn lemma_windows_catch_all(s: Seq<char>)
    requires
        contains_lit(s, "Windows"@),
        spec_match_ios(s) is None,
        spec_match_mac(s) is None,
        !contains_lit(s, "Android"@),
        !contains_lit(s, "Linux"@),
        !contains_lit(s, "Macintosh"@),
        !contains_lit(s, "Windows XP"@),
        !contains_lit(s, "Windows NT 5.1"@),
        !contains_lit(s, "Windows NT 6.0"@),
        !contains_lit(s, "Windows NT 6.1"@),
        !contains_lit(s, "Windows NT 6.2"@),
        !contains_lit(s, "Windows NT 6.3"@),
        !contains_lit(s, "Windows NT 10.0"@),
    ensures
        spec_platform(s) == Some((PlatformName::Windows, 0int, 0int)),
{
}

} // verus!
