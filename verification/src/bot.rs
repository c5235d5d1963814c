//! The bot classifier: an ordered cascade that recognizes well-known
//! crawlers and automated clients. The first two matchers use the shared
//! token-version pattern (the captured version is validated but discarded:
//! bot records carry identity only), the rest are plain substring tests.

use vstd::prelude::*;

use crate::text::{
    contains_lit, contains_str, find_lit_version, lit_version_matches, lit_version_vals, vals_fit,
};

verus! {

#[derive(Clone, Debug, PartialEq)]
pub enum BotName {
    Baidu,
    Bingbot,
    DuckDuckBot,
    /// The Go language's stock HTTP client.
    Go,
    Googlebot,
}

/// Stable display name of a bot identity.
pub open spec fn spec_bot_name(n: BotName) -> Seq<char> {
    match n {
        BotName::Baidu => "Baidu"@,
        BotName::Bingbot => "Bingbot"@,
        BotName::DuckDuckBot => "DuckDuckBot"@,
        BotName::Go => "Go HTTP package"@,
        BotName::Googlebot => "Googlebot"@,
    }
}

impl BotName {
    /// The identity's stable display name.
    pub fn display_name(&self) -> (r: String)
        ensures
            r@ == spec_bot_name(*self),
    {
        match *self {
            BotName::Baidu => "Baidu".to_owned(),
            BotName::Bingbot => "Bingbot".to_owned(),
            BotName::DuckDuckBot => "DuckDuckBot".to_owned(),
            BotName::Go => "Go HTTP package".to_owned(),
            BotName::Googlebot => "Googlebot".to_owned(),
        }
    }
}

#[derive(Clone, Debug, PartialEq)]
pub struct Bot {
    pub name: BotName,
}

/// The whole cascade: the first matcher that succeeds names the bot.
pub open spec fn spec_bot(s: Seq<char>) -> Option<BotName> {
    if lit_version_matches(s, "Googlebot/"@, '.') {
        Some(BotName::Googlebot)
    } else if lit_version_matches(s, "bingbot/"@, '.') {
        Some(BotName::Bingbot)
    } else if contains_lit(s, "Baidu"@) {
        Some(BotName::Baidu)
    } else if contains_lit(s, "DuckDuckBot"@) {
        Some(BotName::DuckDuckBot)
    } else if contains_lit(s, "Go-http-client"@) {
        Some(BotName::Go)
    } else {
        None
    }
}

/// The version captured by the first token-version matcher that succeeds
/// fits the 8-bit version fields. The value is discarded from the record,
/// but an out-of-range capture is still a fatal classification error.
pub open spec fn spec_bot_fits(s: Seq<char>) -> bool {
    &&& vals_fit(lit_version_vals(s, "Googlebot/"@, '.'))
    &&& !lit_version_matches(s, "Googlebot/"@, '.') ==> vals_fit(
        lit_version_vals(s, "bingbot/"@, '.'),
    )
}

/// The executable record `r` agrees with the specified cascade result `v`.
pub open spec fn bot_opt_matches(r: Option<Bot>, v: Option<BotName>) -> bool {
    match (r, v) {
        (Option::None, Option::None) => true,
        (Option::Some(b), Option::Some(n)) => b.name == n,
        _ => false,
    }
}

impl Bot {
    pub fn new(name: BotName) -> (r: Bot)
        ensures
            r.name == name,
    {
        Bot { name }
    }

    /// Runs the cascade and returns the first match, or `None` when the
    /// string is not recognized as a bot. The precondition rules out exactly
    /// the strings on which a matched bot token carries a version beyond the
    /// 8-bit range: such a capture is a fatal classification error.
    pub fn parse(ua: &str) -> (r: Option<Bot>)
        requires
            spec_bot_fits(ua@),
        ensures
            bot_opt_matches(r, spec_bot(ua@)),
    {
        if find_lit_version(ua, "Googlebot/", '.').is_some() {
            return Some(Bot::new(BotName::Googlebot));
        }
        if find_lit_version(ua, "bingbot/", '.').is_some() {
            return Some(Bot::new(BotName::Bingbot));
        }
        if contains_str(ua, "Baidu") {
            return Some(Bot::new(BotName::Baidu));
        }
        if contains_str(ua, "DuckDuckBot") {
            return Some(Bot::new(BotName::DuckDuckBot));
        }
        if contains_str(ua, "Go-http-client") {
            return Some(Bot::new(BotName::Go));
        }
        None
    }
}

} // verus!
