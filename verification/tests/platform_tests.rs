use ua_classifier::platform::{Platform, PlatformName};

const ANDROID_444: &'static str = "Mozilla/5.0 (Linux; Android 4.4.4; One Build/KTU84L.H4) AppleWebKit/537.36 (KHTML, like Gecko) Chrome/36.0.1985.135 Mobile Safari/537.36";
const IOS_802: &'static str = "Mozilla/5.0 (iPhone; CPU iPhone OS 8_0_2 like Mac OS X) AppleWebKit/600.1.4 (KHTML, like Gecko) Version/8.0 Mobile/12A366 Safari/600.1.4";
const MAC_1093: &'static str = "Mozilla/5.0 (Macintosh; Intel Mac OS X 10_9_3) AppleWebKit/537.75.14 (KHTML, like Gecko) Version/7.0.3 Safari/7046A194A";
const WINDOWS_81: &'static str = "Mozilla/5.0 (Windows NT 6.3; Trident/7.0; rv:11.0) like Gecko";

#[test]
fn matches_android_444() {
    assert_eq!(
        Platform::parse(ANDROID_444),
        Some(Platform::new(PlatformName::Android, 0, 0))
    )
}

#[test]
fn matches_ios_802() {
    assert_eq!(
        Platform::parse(IOS_802),
        Some(Platform::new(PlatformName::IOS, 8, 0))
    )
}

#[test]
fn matches_mac1093() {
    assert_eq!(
        Platform::parse(MAC_1093),
        Some(Platform::new(PlatformName::Mac, 10, 9))
    )
}

#[test]
fn matches_windows_81() {
    assert_eq!(
        Platform::parse(WINDOWS_81),
        Some(Platform::new(PlatformName::Windows, 8, 1))
    )
}

#[test]
fn matches_ios_without_iphone_part() {
    // The "iPhone " part of the token is optional: iPad strings omit it.
    assert_eq!(
        Platform::parse("Mozilla/5.0 (iPad; CPU OS 6_0 like Mac OS X) AppleWebKit/536.26"),
        Some(Platform::new(PlatformName::IOS, 6, 0))
    )
}

#[test]
fn matches_ios_without_patch_digits() {
    assert_eq!(
        Platform::parse("Mozilla/5.0 (iPhone; CPU iPhone OS 7_0 like Mac OS X)"),
        Some(Platform::new(PlatformName::IOS, 7, 0))
    )
}

#[test]
fn ios_token_needs_its_closing_literal() {
    // Without " like Mac OS X" the iOS entry fails; no other entry matches.
    assert_eq!(Platform::parse("CPU iPhone OS 8_0_2"), None);
}

#[test]
fn ios_patch_group_must_be_digits() {
    // After the minor digits, only a `_` followed by digits may stand before
    // the closing literal.
    assert_eq!(Platform::parse("CPU OS 6_0_x like Mac OS X"), None);
    assert_eq!(Platform::parse("CPU OS 6_0_2_9 like Mac OS X"), None);
    assert_eq!(
        Platform::parse("CPU OS 6_0_2 like Mac OS X"),
        Some(Platform::new(PlatformName::IOS, 6, 0))
    );
}

#[test]
fn matches_windows_table() {
    let cases: [(&str, i8, i8); 6] = [
        ("Windows XP", 5, 1),
        ("Windows NT 5.1", 5, 1),
        ("Windows NT 6.0", 6, 0),
        ("Windows NT 6.1", 7, 0),
        ("Windows NT 6.2", 8, 0),
        ("Windows NT 10.0", 10, 0),
    ];
    for (ua, major, minor) in cases {
        assert_eq!(
            Platform::parse(ua),
            Some(Platform::new(PlatformName::Windows, major, minor))
        );
    }
}

#[test]
fn matches_windows_catch_all() {
    // An unlisted build token still classifies as Windows, unknown version.
    assert_eq!(
        Platform::parse("Mozilla/5.0 (Windows NT 99.0)"),
        Some(Platform::new(PlatformName::Windows, 0, 0))
    )
}

#[test]
fn matches_linux_and_macintosh() {
    assert_eq!(
        Platform::parse("Mozilla/5.0 (X11; Linux x86_64)"),
        Some(Platform::new(PlatformName::Linux, 0, 0))
    );
    // A Macintosh without a Mac OS X version token gets the fixed (0,0).
    assert_eq!(
        Platform::parse("Mozilla/5.0 (Macintosh; PPC)"),
        Some(Platform::new(PlatformName::Mac, 0, 0))
    );
}
