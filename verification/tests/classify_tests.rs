use ua_classifier::bot::BotName;
use ua_classifier::browser::BrowserFamily;
use ua_classifier::platform::PlatformName;
use ua_classifier::user_agent::UserAgent;

const GOOGLEBOT: &'static str = "Mozilla/5.0 (compatible; Googlebot/2.1; +http://www.google.com/bot.html)";
const MOBILE_SAFARI_6: &'static str = "Mozilla/5.0 (iPad; CPU OS 6_0 like Mac OS X) AppleWebKit/536.26 (KHTML, like Gecko) Version/6.0 Mobile/10A5355d Safari/8536.25";

#[test]
fn classify_twice_is_identical() {
    let inputs = [
        GOOGLEBOT,
        MOBILE_SAFARI_6,
        "Mozilla/5.0 (Windows NT 6.3; Trident/7.0; rv:11.0) like Gecko",
        "gibberish",
        "",
    ];
    for ua in inputs {
        let first = UserAgent::parse(ua);
        let second = UserAgent::parse(ua);
        assert_eq!(first.browser, second.browser);
        assert_eq!(first.bot, second.bot);
        assert_eq!(first.platform, second.platform);
        assert_eq!(first.source, second.source);
    }
}

#[test]
fn bot_and_browser_never_both_present() {
    let inputs = [
        GOOGLEBOT,
        MOBILE_SAFARI_6,
        "Mozilla/5.0 (compatible; bingbot/2.0) Chrome/50.0 Safari/537.36",
        "Opera/9.80 Presto/2.12.388 Version/12.16",
        "nothing recognizable",
    ];
    for ua in inputs {
        let result = UserAgent::parse(ua);
        assert!(!(result.bot.is_some() && result.browser.is_some()));
    }
}

#[test]
fn edge_token_beats_chrome_token() {
    let ua = "Mozilla/5.0 (Windows NT 10.0) AppleWebKit/537.36 (KHTML, like Gecko) Chrome/52.0.2743.116 Safari/537.36 Edge/15.90";
    let result = UserAgent::parse(ua);
    let browser = result.browser.unwrap();
    assert_eq!(browser.family, BrowserFamily::Edge);
    assert_eq!((browser.major_version, browser.minor_version), (15, 90));
}

#[test]
fn opera_token_beats_chrome_token() {
    let ua = "Opera/9.80 (X11; Linux x86_64) Chrome/50.0.2661.86 Presto/2.12.388 Version/12.16";
    let result = UserAgent::parse(ua);
    let browser = result.browser.unwrap();
    assert_eq!(browser.family, BrowserFamily::Opera);
    assert_eq!((browser.major_version, browser.minor_version), (12, 16));
}

#[test]
fn googlebot_beats_chrome_token() {
    let ua = "Mozilla/5.0 (compatible; Googlebot/2.1; +http://www.google.com/bot.html) Chrome/41.0.2272.96 Safari/537.36";
    let result = UserAgent::parse(ua);
    assert_eq!(result.bot.unwrap().name, BotName::Googlebot);
    assert!(result.browser.is_none());
}

#[test]
fn mac_without_ios_token_is_mac() {
    let ua = "Mozilla/5.0 (Macintosh; Intel Mac OS X 10_9_3) AppleWebKit/537.75.14 (KHTML, like Gecko) Version/7.0.3 Safari/7046A194A";
    let result = UserAgent::parse(ua);
    let platform = result.platform.unwrap();
    assert_eq!(platform.name, PlatformName::Mac);
    assert_eq!((platform.major_version, platform.minor_version), (10, 9));
}

#[test]
fn ios_token_beats_mac_token() {
    let ua = "Mozilla/5.0 (iPhone; CPU iPhone OS 8_0_2 like Mac OS X) AppleWebKit/600.1.4";
    let result = UserAgent::parse(ua);
    let platform = result.platform.unwrap();
    assert_eq!(platform.name, PlatformName::IOS);
    assert_eq!((platform.major_version, platform.minor_version), (8, 0));
}

#[test]
fn windows_nt_63_is_windows_8_1() {
    let result = UserAgent::parse("Mozilla/5.0 (Windows NT 6.3; Trident/7.0; rv:11.0) like Gecko");
    let platform = result.platform.unwrap();
    assert_eq!(platform.name, PlatformName::Windows);
    assert_eq!((platform.major_version, platform.minor_version), (8, 1));
}

#[test]
fn unlisted_windows_token_is_windows_0_0() {
    let result = UserAgent::parse("Mozilla/5.0 (Windows NT 99.0; Win64; x64)");
    let platform = result.platform.unwrap();
    assert_eq!(platform.name, PlatformName::Windows);
    assert_eq!((platform.major_version, platform.minor_version), (0, 0));
}

#[test]
fn googlebot_end_to_end() {
    let result = UserAgent::parse(GOOGLEBOT);
    assert_eq!(result.bot.unwrap().name, BotName::Googlebot);
    assert!(result.browser.is_none());
    assert_eq!(result.source, GOOGLEBOT);
}

#[test]
fn mobile_safari_end_to_end() {
    let result = UserAgent::parse(MOBILE_SAFARI_6);
    let browser = result.browser.unwrap();
    assert_eq!(browser.family, BrowserFamily::MobileSafari);
    assert_eq!((browser.major_version, browser.minor_version), (6, 0));
    assert!(result.bot.is_none());
    let platform = result.platform.unwrap();
    assert_eq!(platform.name, PlatformName::IOS);
    assert_eq!((platform.major_version, platform.minor_version), (6, 0));
}

#[test]
fn unrecognized_input_yields_absent_records() {
    let result = UserAgent::parse("xyz");
    assert!(result.browser.is_none());
    assert!(result.bot.is_none());
    assert!(result.platform.is_none());
    assert_eq!(result.source, "xyz");
}

#[test]
fn empty_input_yields_absent_records() {
    let result = UserAgent::parse("");
    assert!(result.browser.is_none());
    assert!(result.bot.is_none());
    assert!(result.platform.is_none());
    assert_eq!(result.source, "");
}
