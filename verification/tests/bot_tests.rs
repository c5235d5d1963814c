use ua_classifier::bot::{Bot, BotName};

const BAIDU: &'static str = "Mozilla/5.0 (compatible; Baiduspider/2.0; +http://www.baidu.com/search/spider.html)";
const BINGBOT: &'static str = "Mozilla/5.0 (iPhone; CPU iPhone OS 7_0 like Mac OS X) AppleWebKit/537.51.1 (KHTML, like Gecko) Version/7.0 Mobile/11A465 Safari/9537.53 (compatible; bingbot/2.0; +http://www.bing.com/bingbot.htm)";
const GOOGLEBOT: &'static str = "Mozilla/5.0 (compatible; Googlebot/2.1; +http://www.google.com/bot.html)";

#[test]
fn test_parse_googlebot() {
    assert_eq!(
        Bot::new(BotName::Googlebot),
        Bot::parse(GOOGLEBOT).unwrap()
    )
}

#[test]
fn test_parse_bingbot() {
    assert_eq!(
        Bot::new(BotName::Bingbot),
        Bot::parse(BINGBOT).unwrap()
    )
}

#[test]
fn test_parse_baidu() {
    assert_eq!(
        Bot::new(BotName::Baidu),
        Bot::parse(BAIDU).unwrap()
    )
}

#[test]
fn test_parse_duckduckbot() {
    assert_eq!(
        Bot::new(BotName::DuckDuckBot),
        Bot::parse("DuckDuckBot/1.0; (+http://duckduckgo.com/duckduckbot.html)").unwrap()
    )
}

#[test]
fn test_parse_go_http_client() {
    assert_eq!(
        Bot::new(BotName::Go),
        Bot::parse("Go-http-client/1.1").unwrap()
    )
}

#[test]
fn test_bingbot_token_is_case_sensitive() {
    // The bingbot matcher wants the lowercase token; nothing else in this
    // string is a bot signature either.
    assert_eq!(Bot::parse("Mozilla/5.0 (compatible; Bingbot/2.0)"), None);
}

#[test]
fn test_bot_token_needs_version() {
    // The Googlebot matcher is a version pattern, not a plain substring.
    assert_eq!(Bot::parse("Googlebot without a version"), None);
}

#[test]
fn test_display_names() {
    assert_eq!(BotName::Googlebot.display_name(), "Googlebot");
    assert_eq!(BotName::Bingbot.display_name(), "Bingbot");
    assert_eq!(BotName::Baidu.display_name(), "Baidu");
    assert_eq!(BotName::DuckDuckBot.display_name(), "DuckDuckBot");
    assert_eq!(BotName::Go.display_name(), "Go HTTP package");
}
