use uaparser::fields::none_if_empty;
use uaparser::normalize::clean_escapes;
use uaparser::Catalog;
use uaparser::UserAgentParser;
use uaparser::user_agent::UserAgentEntry;

#[test]
fn escapes_of_bang_space_slash_are_unwrapped() {
    assert_eq!(clean_escapes("a\\!b\\ c\\/d"), "a!b c/d");
}

#[test]
fn meaningful_escapes_are_kept() {
    assert_eq!(clean_escapes("\\d+\\.\\w"), "\\d+\\.\\w");
}

#[test]
fn normalizing_twice_changes_nothing() {
    let once = clean_escapes("App\\/(\\d+) \\!v\\d");
    let twice = clean_escapes(&once);
    assert_eq!(once, twice);
}

#[test]
fn none_if_empty_distinguishes_empty() {
    assert_eq!(none_if_empty(String::new()), None);
    assert_eq!(none_if_empty("x".to_string()).as_deref(), Some("x"));
}

#[test]
fn normalized_pattern_is_what_compiles() {
    // The authored pattern escapes a slash; only normalization makes it
    // a pattern that matches the input below.
    let c = Catalog {
        device_parsers: vec![],
        os_parsers: vec![],
        user_agent_parsers: vec![UserAgentEntry {
            regex: "App\\/(\\d+)".to_string(),
            family_replacement: Some("App".to_string()),
            v1_replacement: Some("$1".to_string()),
            v2_replacement: None,
            v3_replacement: None,
        }],
    };
    let p = UserAgentParser::try_from(c).unwrap();
    let ua = p.parse_user_agent("App/42");
    assert_eq!(ua.family, "App");
    assert_eq!(ua.major.as_deref(), Some("42"));
}

#[test]
fn placeholder_replacement_trims_whitespace() {
    let c = Catalog {
        device_parsers: vec![],
        os_parsers: vec![],
        user_agent_parsers: vec![UserAgentEntry {
            regex: "Qux/(\\d+)".to_string(),
            family_replacement: Some("  $1 browser  ".to_string()),
            v1_replacement: None,
            v2_replacement: None,
            v3_replacement: None,
        }],
    };
    let p = UserAgentParser::try_from(c).unwrap();
    let ua = p.parse_user_agent("Qux/9");
    assert_eq!(ua.family, "9 browser");
}

#[test]
fn unparticipating_group_substitutes_empty() {
    let c = Catalog {
        device_parsers: vec![],
        os_parsers: vec![],
        user_agent_parsers: vec![UserAgentEntry {
            regex: "Zap/(\\d+)(?:-(beta))?".to_string(),
            family_replacement: Some("Zap$2".to_string()),
            v1_replacement: Some("$1".to_string()),
            v2_replacement: None,
            v3_replacement: None,
        }],
    };
    let p = UserAgentParser::try_from(c).unwrap();
    let plain = p.parse_user_agent("Zap/5");
    assert_eq!(plain.family, "Zap");
    assert_eq!(plain.major.as_deref(), Some("5"));
    let beta = p.parse_user_agent("Zap/5-beta");
    assert_eq!(beta.family, "Zapbeta");
}
