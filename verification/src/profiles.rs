use vstd::prelude::*;

verus! {

/// A named browser or HTTP-client identity from the fixed emulation
/// catalog. The underlying protocol engine owns the TLS and HTTP-layer
/// fingerprint attached to each identity; here the profile is the
/// immutable token the rest of the bridge carries around.
#[derive(Debug, Clone, Copy, PartialEq, Eq, Structural)]
pub enum EmulationProfile {
    Chrome100,
    Chrome101,
    Chrome104,
    Chrome105,
    Chrome106,
    Chrome107,
    Chrome108,
    Chrome109,
    Chrome110,
    Chrome114,
    Chrome116,
    Chrome117,
    Chrome118,
    Chrome119,
    Chrome120,
    Chrome123,
    Chrome124,
    Chrome126,
    Chrome127,
    Chrome128,
    Chrome129,
    Chrome130,
    Chrome131,
    Chrome132,
    Chrome133,
    Chrome134,
    Chrome135,
    Chrome136,
    Chrome137,
    Edge101,
    Edge122,
    Edge127,
    Edge131,
    Edge134,
    SafariIos17_2,
    SafariIos17_4_1,
    SafariIos16_5,
    Safari15_3,
    Safari15_5,
    Safari15_6_1,
    Safari16,
    Safari16_5,
    Safari17_0,
    Safari17_2_1,
    Safari17_4_1,
    Safari17_5,
    Safari18,
    SafariIPad18,
    Safari18_2,
    SafariIos18_1_1,
    Safari18_3,
    Safari18_3_1,
    Safari18_5,
    Firefox109,
    Firefox117,
    Firefox128,
    Firefox133,
    Firefox135,
    FirefoxPrivate135,
    FirefoxAndroid135,
    Firefox136,
    FirefoxPrivate136,
    Firefox139,
    Opera116,
    Opera117,
    Opera118,
    Opera119,
    OkHttp3_9,
    OkHttp3_11,
    OkHttp3_13,
    OkHttp3_14,
    OkHttp4_9,
    OkHttp4_10,
    OkHttp4_12,
    OkHttp5,
}

/// The profile an unrecognized or omitted name falls back to:
/// the newest supported Chrome profile.
pub open spec fn default_profile() -> EmulationProfile {
    EmulationProfile::Chrome137
}

/// The number of names in the catalog.
pub open spec fn catalog_len() -> int {
    75
}

/// The catalog entry at position `i`, in the order `get_profiles` lists:
/// Chrome, then Edge, Safari, Firefox, Opera, OkHttp.
pub open spec fn catalog_name(i: int) -> Seq<char> {
    if i == 0 { "chrome_100"@ }
    else if i == 1 { "chrome_101"@ }
    else if i == 2 { "chrome_104"@ }
    else if i == 3 { "chrome_105"@ }
    else if i == 4 { "chrome_106"@ }
    else if i == 5 { "chrome_107"@ }
    else if i == 6 { "chrome_108"@ }
    else if i == 7 { "chrome_109"@ }
    else if i == 8 { "chrome_110"@ }
    else if i == 9 { "chrome_114"@ }
    else if i == 10 { "chrome_116"@ }
    else if i == 11 { "chrome_117"@ }
    else if i == 12 { "chrome_118"@ }
    else if i == 13 { "chrome_119"@ }
    else if i == 14 { "chrome_120"@ }
    else if i == 15 { "chrome_123"@ }
    else if i == 16 { "chrome_124"@ }
    else if i == 17 { "chrome_126"@ }
    else if i == 18 { "chrome_127"@ }
    else if i == 19 { "chrome_128"@ }
    else if i == 20 { "chrome_129"@ }
    else if i == 21 { "chrome_130"@ }
    else if i == 22 { "chrome_131"@ }
    else if i == 23 { "chrome_132"@ }
    else if i == 24 { "chrome_133"@ }
    else if i == 25 { "chrome_134"@ }
    else if i == 26 { "chrome_135"@ }
    else if i == 27 { "chrome_136"@ }
    else if i == 28 { "chrome_137"@ }
    else if i == 29 { "edge_101"@ }
    else if i == 30 { "edge_122"@ }
    else if i == 31 { "edge_127"@ }
    else if i == 32 { "edge_131"@ }
    else if i == 33 { "edge_134"@ }
    else if i == 34 { "safari_ios_17_2"@ }
    else if i == 35 { "safari_ios_17_4_1"@ }
    else if i == 36 { "safari_ios_16_5"@ }
    else if i == 37 { "safari_15_3"@ }
    else if i == 38 { "safari_15_5"@ }
    else if i == 39 { "safari_15_6_1"@ }
    else if i == 40 { "safari_16"@ }
    else if i == 41 { "safari_16_5"@ }
    else if i == 42 { "safari_17_0"@ }
    else if i == 43 { "safari_17_2_1"@ }
    else if i == 44 { "safari_17_4_1"@ }
    else if i == 45 { "safari_17_5"@ }
    else if i == 46 { "safari_18"@ }
    else if i == 47 { "safari_ipad_18"@ }
    else if i == 48 { "safari_18_2"@ }
    else if i == 49 { "safari_ios_18_1_1"@ }
    else if i == 50 { "safari_18_3"@ }
    else if i == 51 { "safari_18_3_1"@ }
    else if i == 52 { "safari_18_5"@ }
    else if i == 53 { "firefox_109"@ }
    else if i == 54 { "firefox_117"@ }
    else if i == 55 { "firefox_128"@ }
    else if i == 56 { "firefox_133"@ }
    else if i == 57 { "firefox_135"@ }
    else if i == 58 { "firefox_private_135"@ }
    else if i == 59 { "firefox_android_135"@ }
    else if i == 60 { "firefox_136"@ }
    else if i == 61 { "firefox_private_136"@ }
    else if i == 62 { "firefox_139"@ }
    else if i == 63 { "opera_116"@ }
    else if i == 64 { "opera_117"@ }
    else if i == 65 { "opera_118"@ }
    else if i == 66 { "opera_119"@ }
    else if i == 67 { "okhttp_3_9"@ }
    else if i == 68 { "okhttp_3_11"@ }
    else if i == 69 { "okhttp_3_13"@ }
    else if i == 70 { "okhttp_3_14"@ }
    else if i == 71 { "okhttp_4_9"@ }
    else if i == 72 { "okhttp_4_10"@ }
    else if i == 73 { "okhttp_4_12"@ }
    else if i == 74 { "okhttp_5"@ }
    else { Seq::<char>::empty() }
}

/// The ordered catalog of profile names.
pub open spec fn catalog_names() -> Seq<Seq<char>> {
    Seq::new(catalog_len() as nat, |i: int| catalog_name(i))
}

/// The profile a name denotes, or `None` for a name outside the catalog.
pub open spec fn profile_of(name: Seq<char>) -> Option<EmulationProfile> {
    if name == "chrome_100"@ { Some(EmulationProfile::Chrome100) }
    else if name == "chrome_101"@ { Some(EmulationProfile::Chrome101) }
    else if name == "chrome_104"@ { Some(EmulationProfile::Chrome104) }
    else if name == "chrome_105"@ { Some(EmulationProfile::Chrome105) }
    else if name == "chrome_106"@ { Some(EmulationProfile::Chrome106) }
    else if name == "chrome_107"@ { Some(EmulationProfile::Chrome107) }
    else if name == "chrome_108"@ { Some(EmulationProfile::Chrome108) }
    else if name == "chrome_109"@ { Some(EmulationProfile::Chrome109) }
    else if name == "chrome_110"@ { Some(EmulationProfile::Chrome110) }
    else if name == "chrome_114"@ { Some(EmulationProfile::Chrome114) }
    else if name == "chrome_116"@ { Some(EmulationProfile::Chrome116) }
    else if name == "chrome_117"@ { Some(EmulationProfile::Chrome117) }
    else if name == "chrome_118"@ { Some(EmulationProfile::Chrome118) }
    else if name == "chrome_119"@ { Some(EmulationProfile::Chrome119) }
    else if name == "chrome_120"@ { Some(EmulationProfile::Chrome120) }
    else if name == "chrome_123"@ { Some(EmulationProfile::Chrome123) }
    else if name == "chrome_124"@ { Some(EmulationProfile::Chrome124) }
    else if name == "chrome_126"@ { Some(EmulationProfile::Chrome126) }
    else if name == "chrome_127"@ { Some(EmulationProfile::Chrome127) }
    else if name == "chrome_128"@ { Some(EmulationProfile::Chrome128) }
    else if name == "chrome_129"@ { Some(EmulationProfile::Chrome129) }
    else if name == "chrome_130"@ { Some(EmulationProfile::Chrome130) }
    else if name == "chrome_131"@ { Some(EmulationProfile::Chrome131) }
    else if name == "chrome_132"@ { Some(EmulationProfile::Chrome132) }
    else if name == "chrome_133"@ { Some(EmulationProfile::Chrome133) }
    else if name == "chrome_134"@ { Some(EmulationProfile::Chrome134) }
    else if name == "chrome_135"@ { Some(EmulationProfile::Chrome135) }
    else if name == "chrome_136"@ { Some(EmulationProfile::Chrome136) }
    else if name == "chrome_137"@ { Some(EmulationProfile::Chrome137) }
    else if name == "edge_101"@ { Some(EmulationProfile::Edge101) }
    else if name == "edge_122"@ { Some(EmulationProfile::Edge122) }
    else if name == "edge_127"@ { Some(EmulationProfile::Edge127) }
    else if name == "edge_131"@ { Some(EmulationProfile::Edge131) }
    else if name == "edge_134"@ { Some(EmulationProfile::Edge134) }
    else if name == "safari_ios_17_2"@ { Some(EmulationProfile::SafariIos17_2) }
    else if name == "safari_ios_17_4_1"@ { Some(EmulationProfile::SafariIos17_4_1) }
    else if name == "safari_ios_16_5"@ { Some(EmulationProfile::SafariIos16_5) }
    else if name == "safari_15_3"@ { Some(EmulationProfile::Safari15_3) }
    else if name == "safari_15_5"@ { Some(EmulationProfile::Safari15_5) }
    else if name == "safari_15_6_1"@ { Some(EmulationProfile::Safari15_6_1) }
    else if name == "safari_16"@ { Some(EmulationProfile::Safari16) }
    else if name == "safari_16_5"@ { Some(EmulationProfile::Safari16_5) }
    else if name == "safari_17_0"@ { Some(EmulationProfile::Safari17_0) }
    else if name == "safari_17_2_1"@ { Some(EmulationProfile::Safari17_2_1) }
    else if name == "safari_17_4_1"@ { Some(EmulationProfile::Safari17_4_1) }
    else if name == "safari_17_5"@ { Some(EmulationProfile::Safari17_5) }
    else if name == "safari_18"@ { Some(EmulationProfile::Safari18) }
    else if name == "safari_ipad_18"@ { Some(EmulationProfile::SafariIPad18) }
    else if name == "safari_18_2"@ { Some(EmulationProfile::Safari18_2) }
    else if name == "safari_ios_18_1_1"@ { Some(EmulationProfile::SafariIos18_1_1) }
    else if name == "safari_18_3"@ { Some(EmulationProfile::Safari18_3) }
    else if name == "safari_18_3_1"@ { Some(EmulationProfile::Safari18_3_1) }
    else if name == "safari_18_5"@ { Some(EmulationProfile::Safari18_5) }
    else if name == "firefox_109"@ { Some(EmulationProfile::Firefox109) }
    else if name == "firefox_117"@ { Some(EmulationProfile::Firefox117) }
    else if name == "firefox_128"@ { Some(EmulationProfile::Firefox128) }
    else if name == "firefox_133"@ { Some(EmulationProfile::Firefox133) }
    else if name == "firefox_135"@ { Some(EmulationProfile::Firefox135) }
    else if name == "firefox_private_135"@ { Some(EmulationProfile::FirefoxPrivate135) }
    else if name == "firefox_android_135"@ { Some(EmulationProfile::FirefoxAndroid135) }
    else if name == "firefox_136"@ { Some(EmulationProfile::Firefox136) }
    else if name == "firefox_private_136"@ { Some(EmulationProfile::FirefoxPrivate136) }
    else if name == "firefox_139"@ { Some(EmulationProfile::Firefox139) }
    else if name == "opera_116"@ { Some(EmulationProfile::Opera116) }
    else if name == "opera_117"@ { Some(EmulationProfile::Opera117) }
    else if name == "opera_118"@ { Some(EmulationProfile::Opera118) }
    else if name == "opera_119"@ { Some(EmulationProfile::Opera119) }
    else if name == "okhttp_3_9"@ { Some(EmulationProfile::OkHttp3_9) }
    else if name == "okhttp_3_11"@ { Some(EmulationProfile::OkHttp3_11) }
    else if name == "okhttp_3_13"@ { Some(EmulationProfile::OkHttp3_13) }
    else if name == "okhttp_3_14"@ { Some(EmulationProfile::OkHttp3_14) }
    else if name == "okhttp_4_9"@ { Some(EmulationProfile::OkHttp4_9) }
    else if name == "okhttp_4_10"@ { Some(EmulationProfile::OkHttp4_10) }
    else if name == "okhttp_4_12"@ { Some(EmulationProfile::OkHttp4_12) }
    else if name == "okhttp_5"@ { Some(EmulationProfile::OkHttp5) }
    else { None }
}

/// Whether `resolve` recognizes the name as a catalog entry.
pub open spec fn is_known_profile(name: Seq<char>) -> bool {
    profile_of(name) is Some
}

/// What `parse_emulation` returns: the named profile, or the default
/// for any name outside the catalog. Total: no name is rejected.
pub open spec fn resolve_spec(name: Seq<char>) -> EmulationProfile {
    match profile_of(name) {
        Some(p) => p,
        None => default_profile(),
    }
}

/// Maps a free-form profile name to its emulation profile; any
/// unrecognized name falls back to the default profile rather than
/// failing.
pub fn parse_emulation(name: &str) -> (p: EmulationProfile)
    ensures
        p == resolve_spec(name@),
{
    if crate::text::str_eq(name, "chrome_100") {
        EmulationProfile::Chrome100
    } else if crate::text::str_eq(name, "chrome_101") {
        EmulationProfile::Chrome101
    } else if crate::text::str_eq(name, "chrome_104") {
        EmulationProfile::Chrome104
    } else if crate::text::str_eq(name, "chrome_105") {
        EmulationProfile::Chrome105
    } else if crate::text::str_eq(name, "chrome_106") {
        EmulationProfile::Chrome106
    } else if crate::text::str_eq(name, "chrome_107") {
        EmulationProfile::Chrome107
    } else if crate::text::str_eq(name, "chrome_108") {
        EmulationProfile::Chrome108
    } else if crate::text::str_eq(name, "chrome_109") {
        EmulationProfile::Chrome109
    } else if crate::text::str_eq(name, "chrome_110") {
        EmulationProfile::Chrome110
    } else if crate::text::str_eq(name, "chrome_114") {
        EmulationProfile::Chrome114
    } else if crate::text::str_eq(name, "chrome_116") {
        EmulationProfile::Chrome116
    } else if crate::text::str_eq(name, "chrome_117") {
        EmulationProfile::Chrome117
    } else if crate::text::str_eq(name, "chrome_118") {
        EmulationProfile::Chrome118
    } else if crate::text::str_eq(name, "chrome_119") {
        EmulationProfile::Chrome119
    } else if crate::text::str_eq(name, "chrome_120") {
        EmulationProfile::Chrome120
    } else if crate::text::str_eq(name, "chrome_123") {
        EmulationProfile::Chrome123
    } else if crate::text::str_eq(name, "chrome_124") {
        EmulationProfile::Chrome124
    } else if crate::text::str_eq(name, "chrome_126") {
        EmulationProfile::Chrome126
    } else if crate::text::str_eq(name, "chrome_127") {
        EmulationProfile::Chrome127
    } else if crate::text::str_eq(name, "chrome_128") {
        EmulationProfile::Chrome128
    } else if crate::text::str_eq(name, "chrome_129") {
        EmulationProfile::Chrome129
    } else if crate::text::str_eq(name, "chrome_130") {
        EmulationProfile::Chrome130
    } else if crate::text::str_eq(name, "chrome_131") {
        EmulationProfile::Chrome131
    } else if crate::text::str_eq(name, "chrome_132") {
        EmulationProfile::Chrome132
    } else if crate::text::str_eq(name, "chrome_133") {
        EmulationProfile::Chrome133
    } else if crate::text::str_eq(name, "chrome_134") {
        EmulationProfile::Chrome134
    } else if crate::text::str_eq(name, "chrome_135") {
        EmulationProfile::Chrome135
    } else if crate::text::str_eq(name, "chrome_136") {
        EmulationProfile::Chrome136
    } else if crate::text::str_eq(name, "chrome_137") {
        EmulationProfile::Chrome137
    } else if crate::text::str_eq(name, "edge_101") {
        EmulationProfile::Edge101
    } else if crate::text::str_eq(name, "edge_122") {
        EmulationProfile::Edge122
    } else if crate::text::str_eq(name, "edge_127") {
        EmulationProfile::Edge127
    } else if crate::text::str_eq(name, "edge_131") {
        EmulationProfile::Edge131
    } else if crate::text::str_eq(name, "edge_134") {
        EmulationProfile::Edge134
    } else if crate::text::str_eq(name, "safari_ios_17_2") {
        EmulationProfile::SafariIos17_2
    } else if crate::text::str_eq(name, "safari_ios_17_4_1") {
        EmulationProfile::SafariIos17_4_1
    } else if crate::text::str_eq(name, "safari_ios_16_5") {
        EmulationProfile::SafariIos16_5
    } else if crate::text::str_eq(name, "safari_15_3") {
        EmulationProfile::Safari15_3
    } else if crate::text::str_eq(name, "safari_15_5") {
        EmulationProfile::Safari15_5
    } else if crate::text::str_eq(name, "safari_15_6_1") {
        EmulationProfile::Safari15_6_1
    } else if crate::text::str_eq(name, "safari_16") {
        EmulationProfile::Safari16
    } else if crate::text::str_eq(name, "safari_16_5") {
        EmulationProfile::Safari16_5
    } else if crate::text::str_eq(name, "safari_17_0") {
        EmulationProfile::Safari17_0
    } else if crate::text::str_eq(name, "safari_17_2_1") {
        EmulationProfile::Safari17_2_1
    } else if crate::text::str_eq(name, "safari_17_4_1") {
        EmulationProfile::Safari17_4_1
    } else if crate::text::str_eq(name, "safari_17_5") {
        EmulationProfile::Safari17_5
    } else if crate::text::str_eq(name, "safari_18") {
        EmulationProfile::Safari18
    } else if crate::text::str_eq(name, "safari_ipad_18") {
        EmulationProfile::SafariIPad18
    } else if crate::text::str_eq(name, "safari_18_2") {
        EmulationProfile::Safari18_2
    } else if crate::text::str_eq(name, "safari_ios_18_1_1") {
        EmulationProfile::SafariIos18_1_1
    } else if crate::text::str_eq(name, "safari_18_3") {
        EmulationProfile::Safari18_3
    } else if crate::text::str_eq(name, "safari_18_3_1") {
        EmulationProfile::Safari18_3_1
    } else if crate::text::str_eq(name, "safari_18_5") {
        EmulationProfile::Safari18_5
    } else if crate::text::str_eq(name, "firefox_109") {
        EmulationProfile::Firefox109
    } else if crate::text::str_eq(name, "firefox_117") {
        EmulationProfile::Firefox117
    } else if crate::text::str_eq(name, "firefox_128") {
        EmulationProfile::Firefox128
    } else if crate::text::str_eq(name, "firefox_133") {
        EmulationProfile::Firefox133
    } else if crate::text::str_eq(name, "firefox_135") {
        EmulationProfile::Firefox135
    } else if crate::text::str_eq(name, "firefox_private_135") {
        EmulationProfile::FirefoxPrivate135
    } else if crate::text::str_eq(name, "firefox_android_135") {
        EmulationProfile::FirefoxAndroid135
    } else if crate::text::str_eq(name, "firefox_136") {
        EmulationProfile::Firefox136
    } else if crate::text::str_eq(name, "firefox_private_136") {
        EmulationProfile::FirefoxPrivate136
    } else if crate::text::str_eq(name, "firefox_139") {
        EmulationProfile::Firefox139
    } else if crate::text::str_eq(name, "opera_116") {
        EmulationProfile::Opera116
    } else if crate::text::str_eq(name, "opera_117") {
        EmulationProfile::Opera117
    } else if crate::text::str_eq(name, "opera_118") {
        EmulationProfile::Opera118
    } else if crate::text::str_eq(name, "opera_119") {
        EmulationProfile::Opera119
    } else if crate::text::str_eq(name, "okhttp_3_9") {
        EmulationProfile::OkHttp3_9
    } else if crate::text::str_eq(name, "okhttp_3_11") {
        EmulationProfile::OkHttp3_11
    } else if crate::text::str_eq(name, "okhttp_3_13") {
        EmulationProfile::OkHttp3_13
    } else if crate::text::str_eq(name, "okhttp_3_14") {
        EmulationProfile::OkHttp3_14
    } else if crate::text::str_eq(name, "okhttp_4_9") {
        EmulationProfile::OkHttp4_9
    } else if crate::text::str_eq(name, "okhttp_4_10") {
        EmulationProfile::OkHttp4_10
    } else if crate::text::str_eq(name, "okhttp_4_12") {
        EmulationProfile::OkHttp4_12
    } else if crate::text::str_eq(name, "okhttp_5") {
        EmulationProfile::OkHttp5
    } else {
        EmulationProfile::Chrome137
    }
}

/// The full, ordered catalog of profile names, for host introspection.
pub fn get_profiles() -> (r: Vec<String>)
    ensures
        r@.len() == catalog_names().len(),
        forall|i: int| 0 <= i < r@.len() ==> #[trigger] r@[i]@ == catalog_names()[i],
{
    let mut r: Vec<String> = Vec::new();
    r.push("chrome_100".to_owned());
    r.push("chrome_101".to_owned());
    r.push("chrome_104".to_owned());
    r.push("chrome_105".to_owned());
    r.push("chrome_106".to_owned());
    r.push("chrome_107".to_owned());
    r.push("chrome_108".to_owned());
    r.push("chrome_109".to_owned());
    r.push("chrome_110".to_owned());
    r.push("chrome_114".to_owned());
    r.push("chrome_116".to_owned());
    r.push("chrome_117".to_owned());
    r.push("chrome_118".to_owned());
    r.push("chrome_119".to_owned());
    r.push("chrome_120".to_owned());
    r.push("chrome_123".to_owned());
    r.push("chrome_124".to_owned());
    r.push("chrome_126".to_owned());
    r.push("chrome_127".to_owned());
    r.push("chrome_128".to_owned());
    r.push("chrome_129".to_owned());
    r.push("chrome_130".to_owned());
    r.push("chrome_131".to_owned());
    r.push("chrome_132".to_owned());
    r.push("chrome_133".to_owned());
    r.push("chrome_134".to_owned());
    r.push("chrome_135".to_owned());
    r.push("chrome_136".to_owned());
    r.push("chrome_137".to_owned());
    r.push("edge_101".to_owned());
    r.push("edge_122".to_owned());
    r.push("edge_127".to_owned());
    r.push("edge_131".to_owned());
    r.push("edge_134".to_owned());
    r.push("safari_ios_17_2".to_owned());
    r.push("safari_ios_17_4_1".to_owned());
    r.push("safari_ios_16_5".to_owned());
    r.push("safari_15_3".to_owned());
    r.push("safari_15_5".to_owned());
    r.push("safari_15_6_1".to_owned());
    r.push("safari_16".to_owned());
    r.push("safari_16_5".to_owned());
    r.push("safari_17_0".to_owned());
    r.push("safari_17_2_1".to_owned());
    r.push("safari_17_4_1".to_owned());
    r.push("safari_17_5".to_owned());
    r.push("safari_18".to_owned());
    r.push("safari_ipad_18".to_owned());
    r.push("safari_18_2".to_owned());
    r.push("safari_ios_18_1_1".to_owned());
    r.push("safari_18_3".to_owned());
    r.push("safari_18_3_1".to_owned());
    r.push("safari_18_5".to_owned());
    r.push("firefox_109".to_owned());
    r.push("firefox_117".to_owned());
    r.push("firefox_128".to_owned());
    r.push("firefox_133".to_owned());
    r.push("firefox_135".to_owned());
    r.push("firefox_private_135".to_owned());
    r.push("firefox_android_135".to_owned());
    r.push("firefox_136".to_owned());
    r.push("firefox_private_136".to_owned());
    r.push("firefox_139".to_owned());
    r.push("opera_116".to_owned());
    r.push("opera_117".to_owned());
    r.push("opera_118".to_owned());
    r.push("opera_119".to_owned());
    r.push("okhttp_3_9".to_owned());
    r.push("okhttp_3_11".to_owned());
    r.push("okhttp_3_13".to_owned());
    r.push("okhttp_3_14".to_owned());
    r.push("okhttp_4_9".to_owned());
    r.push("okhttp_4_10".to_owned());
    r.push("okhttp_4_12".to_owned());
    r.push("okhttp_5".to_owned());
    proof {
        assert forall|i: int| 0 <= i < r@.len() implies #[trigger] r@[i]@ == catalog_names()[i] by {
            assert(catalog_names()[i] == catalog_name(i));
        }
    }
    r
}

/// Unrecognized profile names never fail: they resolve to the default
/// profile.
pub proof fn lemma_unknown_resolves_to_default(name: Seq<char>)
    requires
        !is_known_profile(name),
    ensures
        resolve_spec(name) == default_profile(),
{
}

/// The catalog listing is non-empty and holds exactly the names that
/// `resolve_spec` recognizes.
pub proof fn lemma_catalog_complete()
    ensures
        catalog_names().len() > 0,
        forall|name: Seq<char>| is_known_profile(name) <==> catalog_names().contains(name),
{
    assert(catalog_names()[0] == "chrome_100"@);
    assert(catalog_names()[1] == "chrome_101"@);
    assert(catalog_names()[2] == "chrome_104"@);
    assert(catalog_names()[3] == "chrome_105"@);
    assert(catalog_names()[4] == "chrome_106"@);
    assert(catalog_names()[5] == "chrome_107"@);
    assert(catalog_names()[6] == "chrome_108"@);
    assert(catalog_names()[7] == "chrome_109"@);
    assert(catalog_names()[8] == "chrome_110"@);
    assert(catalog_names()[9] == "chrome_114"@);
    assert(catalog_names()[10] == "chrome_116"@);
    assert(catalog_names()[11] == "chrome_117"@);
    assert(catalog_names()[12] == "chrome_118"@);
    assert(catalog_names()[13] == "chrome_119"@);
    assert(catalog_names()[14] == "chrome_120"@);
    assert(catalog_names()[15] == "chrome_123"@);
    assert(catalog_names()[16] == "chrome_124"@);
    assert(catalog_names()[17] == "chrome_126"@);
    assert(catalog_names()[18] == "chrome_127"@);
    assert(catalog_names()[19] == "chrome_128"@);
    assert(catalog_names()[20] == "chrome_129"@);
    assert(catalog_names()[21] == "chrome_130"@);
    assert(catalog_names()[22] == "chrome_131"@);
    assert(catalog_names()[23] == "chrome_132"@);
    assert(catalog_names()[24] == "chrome_133"@);
    assert(catalog_names()[25] == "chrome_134"@);
    assert(catalog_names()[26] == "chrome_135"@);
    assert(catalog_names()[27] == "chrome_136"@);
    assert(catalog_names()[28] == "chrome_137"@);
    assert(catalog_names()[29] == "edge_101"@);
    assert(catalog_names()[30] == "edge_122"@);
    assert(catalog_names()[31] == "edge_127"@);
    assert(catalog_names()[32] == "edge_131"@);
    assert(catalog_names()[33] == "edge_134"@);
    assert(catalog_names()[34] == "safari_ios_17_2"@);
    assert(catalog_names()[35] == "safari_ios_17_4_1"@);
    assert(catalog_names()[36] == "safari_ios_16_5"@);
    assert(catalog_names()[37] == "safari_15_3"@);
    assert(catalog_names()[38] == "safari_15_5"@);
    assert(catalog_names()[39] == "safari_15_6_1"@);
    assert(catalog_names()[40] == "safari_16"@);
    assert(catalog_names()[41] == "safari_16_5"@);
    assert(catalog_names()[42] == "safari_17_0"@);
    assert(catalog_names()[43] == "safari_17_2_1"@);
    assert(catalog_names()[44] == "safari_17_4_1"@);
    assert(catalog_names()[45] == "safari_17_5"@);
    assert(catalog_names()[46] == "safari_18"@);
    assert(catalog_names()[47] == "safari_ipad_18"@);
    assert(catalog_names()[48] == "safari_18_2"@);
    assert(catalog_names()[49] == "safari_ios_18_1_1"@);
    assert(catalog_names()[50] == "safari_18_3"@);
    assert(catalog_names()[51] == "safari_18_3_1"@);
    assert(catalog_names()[52] == "safari_18_5"@);
    assert(catalog_names()[53] == "firefox_109"@);
    assert(catalog_names()[54] == "firefox_117"@);
    assert(catalog_names()[55] == "firefox_128"@);
    assert(catalog_names()[56] == "firefox_133"@);
    assert(catalog_names()[57] == "firefox_135"@);
    assert(catalog_names()[58] == "firefox_private_135"@);
    assert(catalog_names()[59] == "firefox_android_135"@);
    assert(catalog_names()[60] == "firefox_136"@);
    assert(catalog_names()[61] == "firefox_private_136"@);
    assert(catalog_names()[62] == "firefox_139"@);
    assert(catalog_names()[63] == "opera_116"@);
    assert(catalog_names()[64] == "opera_117"@);
    assert(catalog_names()[65] == "opera_118"@);
    assert(catalog_names()[66] == "opera_119"@);
    assert(catalog_names()[67] == "okhttp_3_9"@);
    assert(catalog_names()[68] == "okhttp_3_11"@);
    assert(catalog_names()[69] == "okhttp_3_13"@);
    assert(catalog_names()[70] == "okhttp_3_14"@);
    assert(catalog_names()[71] == "okhttp_4_9"@);
    assert(catalog_names()[72] == "okhttp_4_10"@);
    assert(catalog_names()[73] == "okhttp_4_12"@);
    assert(catalog_names()[74] == "okhttp_5"@);
    assert forall|name: Seq<char>| is_known_profile(name) implies catalog_names().contains(name) by {
        if name == "chrome_100"@ { assert(catalog_names()[0] == name); }
        if name == "chrome_101"@ { assert(catalog_names()[1] == name); }
        if name == "chrome_104"@ { assert(catalog_names()[2] == name); }
        if name == "chrome_105"@ { assert(catalog_names()[3] == name); }
        if name == "chrome_106"@ { assert(catalog_names()[4] == name); }
        if name == "chrome_107"@ { assert(catalog_names()[5] == name); }
        if name == "chrome_108"@ { assert(catalog_names()[6] == name); }
        if name == "chrome_109"@ { assert(catalog_names()[7] == name); }
        if name == "chrome_110"@ { assert(catalog_names()[8] == name); }
        if name == "chrome_114"@ { assert(catalog_names()[9] == name); }
        if name == "chrome_116"@ { assert(catalog_names()[10] == name); }
        if name == "chrome_117"@ { assert(catalog_names()[11] == name); }
        if name == "chrome_118"@ { assert(catalog_names()[12] == name); }
        if name == "chrome_119"@ { assert(catalog_names()[13] == name); }
        if name == "chrome_120"@ { assert(catalog_names()[14] == name); }
        if name == "chrome_123"@ { assert(catalog_names()[15] == name); }
        if name == "chrome_124"@ { assert(catalog_names()[16] == name); }
        if name == "chrome_126"@ { assert(catalog_names()[17] == name); }
        if name == "chrome_127"@ { assert(catalog_names()[18] == name); }
        if name == "chrome_128"@ { assert(catalog_names()[19] == name); }
        if name == "chrome_129"@ { assert(catalog_names()[20] == name); }
        if name == "chrome_130"@ { assert(catalog_names()[21] == name); }
        if name == "chrome_131"@ { assert(catalog_names()[22] == name); }
        if name == "chrome_132"@ { assert(catalog_names()[23] == name); }
        if name == "chrome_133"@ { assert(catalog_names()[24] == name); }
        if name == "chrome_134"@ { assert(catalog_names()[25] == name); }
        if name == "chrome_135"@ { assert(catalog_names()[26] == name); }
        if name == "chrome_136"@ { assert(catalog_names()[27] == name); }
        if name == "chrome_137"@ { assert(catalog_names()[28] == name); }
        if name == "edge_101"@ { assert(catalog_names()[29] == name); }
        if name == "edge_122"@ { assert(catalog_names()[30] == name); }
        if name == "edge_127"@ { assert(catalog_names()[31] == name); }
        if name == "edge_131"@ { assert(catalog_names()[32] == name); }
        if name == "edge_134"@ { assert(catalog_names()[33] == name); }
        if name == "safari_ios_17_2"@ { assert(catalog_names()[34] == name); }
        if name == "safari_ios_17_4_1"@ { assert(catalog_names()[35] == name); }
        if name == "safari_ios_16_5"@ { assert(catalog_names()[36] == name); }
        if name == "safari_15_3"@ { assert(catalog_names()[37] == name); }
        if name == "safari_15_5"@ { assert(catalog_names()[38] == name); }
        if name == "safari_15_6_1"@ { assert(catalog_names()[39] == name); }
        if name == "safari_16"@ { assert(catalog_names()[40] == name); }
        if name == "safari_16_5"@ { assert(catalog_names()[41] == name); }
        if name == "safari_17_0"@ { assert(catalog_names()[42] == name); }
        if name == "safari_17_2_1"@ { assert(catalog_names()[43] == name); }
        if name == "safari_17_4_1"@ { assert(catalog_names()[44] == name); }
        if name == "safari_17_5"@ { assert(catalog_names()[45] == name); }
        if name == "safari_18"@ { assert(catalog_names()[46] == name); }
        if name == "safari_ipad_18"@ { assert(catalog_names()[47] == name); }
        if name == "safari_18_2"@ { assert(catalog_names()[48] == name); }
        if name == "safari_ios_18_1_1"@ { assert(catalog_names()[49] == name); }
        if name == "safari_18_3"@ { assert(catalog_names()[50] == name); }
        if name == "safari_18_3_1"@ { assert(catalog_names()[51] == name); }
        if name == "safari_18_5"@ { assert(catalog_names()[52] == name); }
        if name == "firefox_109"@ { assert(catalog_names()[53] == name); }
        if name == "firefox_117"@ { assert(catalog_names()[54] == name); }
        if name == "firefox_128"@ { assert(catalog_names()[55] == name); }
        if name == "firefox_133"@ { assert(catalog_names()[56] == name); }
        if name == "firefox_135"@ { assert(catalog_names()[57] == name); }
        if name == "firefox_private_135"@ { assert(catalog_names()[58] == name); }
        if name == "firefox_android_135"@ { assert(catalog_names()[59] == name); }
        if name == "firefox_136"@ { assert(catalog_names()[60] == name); }
        if name == "firefox_private_136"@ { assert(catalog_names()[61] == name); }
        if name == "firefox_139"@ { assert(catalog_names()[62] == name); }
        if name == "opera_116"@ { assert(catalog_names()[63] == name); }
        if name == "opera_117"@ { assert(catalog_names()[64] == name); }
        if name == "opera_118"@ { assert(catalog_names()[65] == name); }
        if name == "opera_119"@ { assert(catalog_names()[66] == name); }
        if name == "okhttp_3_9"@ { assert(catalog_names()[67] == name); }
        if name == "okhttp_3_11"@ { assert(catalog_names()[68] == name); }
        if name == "okhttp_3_13"@ { assert(catalog_names()[69] == name); }
        if name == "okhttp_3_14"@ { assert(catalog_names()[70] == name); }
        if name == "okhttp_4_9"@ { assert(catalog_names()[71] == name); }
        if name == "okhttp_4_10"@ { assert(catalog_names()[72] == name); }
        if name == "okhttp_4_12"@ { assert(catalog_names()[73] == name); }
        if name == "okhttp_5"@ { assert(catalog_names()[74] == name); }
    }
    assert forall|name: Seq<char>| catalog_names().contains(name) implies is_known_profile(name) by {
        let i = choose|i: int| 0 <= i < catalog_names().len() && catalog_names()[i] == name;
        assert(catalog_name(i) == name);
    }
}

} // verus!
