use embridge::profiles::{get_profiles, parse_emulation, EmulationProfile};

#[test]
fn known_names_resolve_to_their_profile() {
    assert_eq!(parse_emulation("chrome_100"), EmulationProfile::Chrome100);
    assert_eq!(parse_emulation("safari_18_3"), EmulationProfile::Safari18_3);
    assert_eq!(parse_emulation("firefox_private_136"), EmulationProfile::FirefoxPrivate136);
    assert_eq!(parse_emulation("edge_122"), EmulationProfile::Edge122);
    assert_eq!(parse_emulation("opera_119"), EmulationProfile::Opera119);
    assert_eq!(parse_emulation("okhttp_3_9"), EmulationProfile::OkHttp3_9);
}

#[test]
fn unknown_names_resolve_to_default() {
    assert_eq!(parse_emulation("netscape_4"), EmulationProfile::Chrome137);
    assert_eq!(parse_emulation(""), EmulationProfile::Chrome137);
    assert_eq!(parse_emulation("CHROME_100"), EmulationProfile::Chrome137);
    assert_eq!(parse_emulation("chrome_1000"), EmulationProfile::Chrome137);
    assert_eq!(parse_emulation("edge_1220"), EmulationProfile::Chrome137);
}

#[test]
fn default_name_resolves_to_default_profile() {
    assert_eq!(parse_emulation("chrome_137"), EmulationProfile::Chrome137);
}

#[test]
fn catalog_is_complete_and_ordered() {
    let names = get_profiles();
    assert_eq!(names.len(), 75);
    assert_eq!(names[0], "chrome_100");
    assert_eq!(names[74], "okhttp_5");
    assert!(names.iter().any(|n| n == "firefox_android_135"));
    assert!(names.iter().any(|n| n == "safari_ipad_18"));
}

#[test]
fn catalog_names_are_distinct() {
    let names = get_profiles();
    let set: std::collections::HashSet<&String> = names.iter().collect();
    assert_eq!(set.len(), names.len());
}
