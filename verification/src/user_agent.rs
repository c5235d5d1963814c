//! The classification aggregator: one call runs the bot cascade first, the
//! browser cascade only when no bot was recognized (bot strings often carry
//! incidental engine tokens that would produce a misleading browser record),
//! and the platform cascade always, and bundles the three records with the
//! original input into one immutable result.

use vstd::prelude::*;

use crate::bot::{bot_opt_matches, spec_bot, spec_bot_fits, Bot};
use crate::browser::{browser_fits, browser_opt_matches, spec_browser, Browser, BrowserFamily};
use crate::platform::{platform_fits, platform_opt_matches, spec_platform, Platform};

verus! {

pub struct UserAgent {
    pub browser: Option<Browser>,
    pub bot: Option<Bot>,
    pub platform: Option<Platform>,
    /// The string that was parsed to determine the browser, bot, etc.
    pub source: String,
}

/// The browser record that a classification of `s` carries: the browser
/// cascade's result, unless the bot cascade recognized `s` first.
pub open spec fn spec_ua_browser(s: Seq<char>) -> Option<(BrowserFamily, int, int)> {
    if spec_bot(s) is Some {
        None
    } else {
        spec_browser(s)
    }
}

/// Every version value captured during one classification of `s` fits the
/// 8-bit version fields: the bot matchers always run, the browser matchers
/// only when no bot matched, the platform matchers always.
pub open spec fn spec_ua_fits(s: Seq<char>) -> bool {
    &&& spec_bot_fits(s)
    &&& spec_bot(s) is None ==> browser_fits(spec_browser(s))
    &&& platform_fits(spec_platform(s))
}

/// `r` is the classification of `s`: each record agrees with its cascade,
/// the browser record is withheld when a bot was recognized, and the source
/// text is kept verbatim.
pub open spec fn ua_matches_spec(r: UserAgent, s: Seq<char>) -> bool {
    &&& bot_opt_matches(r.bot, spec_bot(s))
    &&& browser_opt_matches(r.browser, spec_ua_browser(s))
    &&& platform_opt_matches(r.platform, spec_platform(s))
    &&& r.source@ == s
}

impl UserAgent {
    /// Classifies `ua`. An unrecognized string is not an error: it yields a
    /// result whose three records are all absent. The precondition rules out
    /// exactly the strings on which some cascade's deciding matcher captures
    /// a version beyond the 8-bit range — a fatal classification error, the
    /// one way a classification call can fail.
    pub fn parse(ua: &str) -> (r: UserAgent)
        requires
            spec_ua_fits(ua@),
        ensures
            ua_matches_spec(r, ua@),
    {
        let mut bot: Option<Bot> = None;
        let mut browser: Option<Browser> = None;

        if let Some(has_bot) = Bot::parse(ua) {
            bot = Some(has_bot);
        } else {
            // Only try to parse for a browser if it isn't a bot
            browser = Browser::parse(ua);
        }

        UserAgent { browser, bot, platform: Platform::parse(ua), source: ua.to_owned() }
    }
}

} // verus!
