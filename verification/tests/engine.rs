use uaparser::Catalog;
use uaparser::Error;
use uaparser::FacetError;
use uaparser::UserAgentParser;
use uaparser::device::DeviceEntry;
use uaparser::os::OsEntry;
use uaparser::user_agent::UserAgentEntry;

fn ua_entry(
    regex: &str,
    family: Option<&str>,
    v1: Option<&str>,
    v2: Option<&str>,
    v3: Option<&str>,
) -> UserAgentEntry {
    UserAgentEntry {
        regex: regex.to_string(),
        family_replacement: family.map(|s| s.to_string()),
        v1_replacement: v1.map(|s| s.to_string()),
        v2_replacement: v2.map(|s| s.to_string()),
        v3_replacement: v3.map(|s| s.to_string()),
    }
}

fn device_entry(
    regex: &str,
    ci: bool,
    family: Option<&str>,
    brand: Option<&str>,
    model: Option<&str>,
) -> DeviceEntry {
    DeviceEntry {
        regex: regex.to_string(),
        case_insensitive: ci,
        device_replacement: family.map(|s| s.to_string()),
        brand_replacement: brand.map(|s| s.to_string()),
        model_replacement: model.map(|s| s.to_string()),
    }
}

fn os_entry(regex: &str, family: Option<&str>, v1: Option<&str>, v2: Option<&str>) -> OsEntry {
    OsEntry {
        regex: regex.to_string(),
        case_insensitive: false,
        os_replacement: family.map(|s| s.to_string()),
        os_v1_replacement: v1.map(|s| s.to_string()),
        os_v2_replacement: v2.map(|s| s.to_string()),
        os_v3_replacement: None,
        os_v4_replacement: None,
    }
}

fn catalog(d: Vec<DeviceEntry>, o: Vec<OsEntry>, u: Vec<UserAgentEntry>) -> Catalog {
    Catalog { device_parsers: d, os_parsers: o, user_agent_parsers: u }
}

#[test]
fn firefox_versions_extracted() {
    let c = catalog(
        vec![],
        vec![],
        vec![ua_entry("Firefox/(\\d+)\\.(\\d+)", Some("Firefox"), Some("$1"), Some("$2"), None)],
    );
    let p = UserAgentParser::try_from(c).unwrap();
    let ua = p.parse_user_agent("Mozilla/5.0 Firefox/89.0");
    assert_eq!(ua.family, "Firefox");
    assert_eq!(ua.major.as_deref(), Some("89"));
    assert_eq!(ua.minor.as_deref(), Some("0"));
    assert_eq!(ua.patch, None);
    let ua_set = p.parse_user_agent_set("Mozilla/5.0 Firefox/89.0");
    assert_eq!(ua, ua_set);
}

#[test]
fn no_match_yields_default_record() {
    let c = catalog(
        vec![],
        vec![],
        vec![ua_entry("Firefox/(\\d+)\\.(\\d+)", Some("Firefox"), Some("$1"), Some("$2"), None)],
    );
    let p = UserAgentParser::try_from(c).unwrap();
    let ua = p.parse_user_agent("curl/7.64.1");
    assert_eq!(ua.family, "Other");
    assert_eq!(ua.major, None);
    assert_eq!(ua.minor, None);
    assert_eq!(ua.patch, None);
    let ua_set = p.parse_user_agent_set("curl/7.64.1");
    assert_eq!(ua, ua_set);
    let d = p.parse_device("curl/7.64.1");
    assert_eq!(d.family, "Other");
    assert_eq!(d.brand, None);
    assert_eq!(d.model, None);
    let os = p.parse_os("curl/7.64.1");
    assert_eq!(os.family, "Other");
    assert_eq!(os.major, None);
}

#[test]
fn earlier_device_rule_wins_under_both_strategies() {
    let c = catalog(
        vec![
            device_entry("iPhone", false, Some("iPhone"), None, None),
            device_entry("iPhone", false, Some("GenericPhone"), None, None),
        ],
        vec![],
        vec![],
    );
    let p = UserAgentParser::try_from(c).unwrap();
    let input = "iPhone; CPU iPhone OS 15_0";
    assert_eq!(p.parse_device(input).family, "iPhone");
    assert_eq!(p.parse_device_set(input).family, "iPhone");
}

#[test]
fn empty_substituted_field_is_absent() {
    let c = catalog(
        vec![],
        vec![],
        vec![ua_entry(
            "Foo/(\\d+)(?:\\.(\\d+))?",
            Some("Foo"),
            Some("$1"),
            Some("$2"),
            None,
        )],
    );
    let p = UserAgentParser::try_from(c).unwrap();
    let ua = p.parse_user_agent("Foo/7");
    assert_eq!(ua.family, "Foo");
    assert_eq!(ua.major.as_deref(), Some("7"));
    assert_eq!(ua.minor, None);
}

#[test]
fn template_without_placeholder_is_trimmed() {
    let c = catalog(
        vec![],
        vec![],
        vec![ua_entry("Bar/(\\d+)", Some("  NiceBrowser  "), None, None, None)],
    );
    let p = UserAgentParser::try_from(c).unwrap();
    let ua = p.parse_user_agent("Bar/3");
    assert_eq!(ua.family, "NiceBrowser");
}

#[test]
fn raw_capture_fallback_takes_conventional_groups() {
    let c = catalog(
        vec![],
        vec![os_entry("(Windows) NT (\\d+)\\.(\\d+)", None, None, None)],
        vec![],
    );
    let p = UserAgentParser::try_from(c).unwrap();
    let os = p.parse_os("Mozilla (Windows NT 10.0)");
    assert_eq!(os.family, "Windows");
    assert_eq!(os.major.as_deref(), Some("10"));
    assert_eq!(os.minor.as_deref(), Some("0"));
    assert_eq!(os.patch, None);
    assert_eq!(os.patch_minor, None);
}

#[test]
fn empty_family_falls_back_to_sentinel() {
    let c = catalog(
        vec![],
        vec![],
        vec![ua_entry("Baz/(\\d*)x", None, None, None, None)],
    );
    let p = UserAgentParser::try_from(c).unwrap();
    // group 1 participates but captures the empty string
    let ua = p.parse_user_agent("Baz/x");
    assert_eq!(ua.family, "Other");
}

#[test]
fn composite_parse_combines_all_three_facets() {
    let c = catalog(
        vec![device_entry("(iPhone)", false, None, Some("Apple"), Some("iPhone"))],
        vec![os_entry("iPhone OS (\\d+)_(\\d+)", Some("iOS"), Some("$1"), Some("$2"))],
        vec![ua_entry("Safari/(\\d+)", Some("Safari"), Some("$1"), None, None)],
    );
    let p = UserAgentParser::try_from(c).unwrap();
    let client = p.parse("iPhone; CPU iPhone OS 15_0 like Mac OS X Safari/604");
    assert_eq!(client.device.family, "iPhone");
    assert_eq!(client.device.brand.as_deref(), Some("Apple"));
    assert_eq!(client.device.model.as_deref(), Some("iPhone"));
    assert_eq!(client.os.family, "iOS");
    assert_eq!(client.os.major.as_deref(), Some("15"));
    assert_eq!(client.os.minor.as_deref(), Some("0"));
    assert_eq!(client.user_agent.family, "Safari");
    assert_eq!(client.user_agent.major.as_deref(), Some("604"));
}

#[test]
fn repeated_queries_are_identical() {
    let c = catalog(
        vec![device_entry("(\\w+)Phone", false, None, None, None)],
        vec![],
        vec![ua_entry("Firefox/(\\d+)", Some("Firefox"), Some("$1"), None, None)],
    );
    let p = UserAgentParser::try_from(c).unwrap();
    let input = "SuperPhone Firefox/10";
    let a = p.parse(input);
    let b = p.parse(input);
    assert_eq!(a, b);
    let da = p.parse_device_set(input);
    let db = p.parse_device_set(input);
    assert_eq!(da, db);
}

#[test]
fn strategies_agree_across_rule_sets() {
    let c = catalog(
        vec![
            device_entry("Nokia(\\d+)", false, Some("Nokia $1"), Some("Nokia"), Some("$1")),
            device_entry("(\\w+)Phone", false, Some("$1 Phone"), None, None),
        ],
        vec![
            os_entry("Android (\\d+)", Some("Android"), Some("$1"), None),
            os_entry("Linux", Some("Linux"), None, None),
        ],
        vec![
            ua_entry("Chrome/(\\d+)\\.(\\d+)", Some("Chrome"), Some("$1"), Some("$2"), None),
            ua_entry("Safari/(\\d+)", Some("Safari"), Some("$1"), None, None),
        ],
    );
    let p = UserAgentParser::try_from(c).unwrap();
    let inputs = [
        "Linux; Android 11; Nokia3310 Chrome/90.1 Safari/537",
        "Linux; WindowsPhone Safari/12",
        "nothing matches here",
    ];
    for input in inputs {
        assert_eq!(p.parse_device(input), p.parse_device_set(input));
        assert_eq!(p.parse_os(input), p.parse_os_set(input));
        assert_eq!(p.parse_user_agent(input), p.parse_user_agent_set(input));
    }
}

#[test]
fn case_insensitive_rule_matches_only_in_ordered_scan() {
    // The flag reaches the rule's own compilation, not the aggregate
    // matcher: on such a catalog the two strategies may disagree.
    let c = catalog(
        vec![device_entry("iphone", true, Some("iPhone"), None, None)],
        vec![],
        vec![],
    );
    let p = UserAgentParser::try_from(c).unwrap();
    let input = "iPhone OS";
    assert_eq!(p.parse_device(input).family, "iPhone");
    assert_eq!(p.parse_device_set(input).family, "Other");
}

#[test]
fn bad_device_pattern_fails_aggregate_first() {
    let c = catalog(vec![device_entry("(", false, None, None, None)], vec![], vec![]);
    match UserAgentParser::try_from(c) {
        Err(Error::Device(FacetError::Aggregate)) => {},
        other => panic!("unexpected result: {:?}", other.err()),
    }
}

#[test]
fn bad_os_pattern_reports_os_facet() {
    let c = catalog(vec![], vec![os_entry("[", None, None, None)], vec![]);
    match UserAgentParser::try_from(c) {
        Err(Error::OS(FacetError::Aggregate)) => {},
        other => panic!("unexpected result: {:?}", other.err()),
    }
}

#[test]
fn bad_client_pattern_reports_client_facet() {
    let c = catalog(
        vec![],
        vec![],
        vec![ua_entry("ok", None, None, None, None), ua_entry("(unclosed", None, None, None, None)],
    );
    match UserAgentParser::try_from(c) {
        Err(Error::UserAgent(FacetError::Aggregate)) => {},
        other => panic!("unexpected result: {:?}", other.err()),
    }
}

#[test]
fn empty_catalog_builds_and_defaults() {
    let c = catalog(vec![], vec![], vec![]);
    let p = UserAgentParser::try_from(c).unwrap();
    let client = p.parse("anything at all");
    assert_eq!(client.device.family, "Other");
    assert_eq!(client.os.family, "Other");
    assert_eq!(client.user_agent.family, "Other");
}
