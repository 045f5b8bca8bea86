use betterlytics::ua_parser::{initialize, parse_user_agent, RulesError};

const RULES: &str = r#"
user_agent_parsers:
  - regex: '(Firefox)/(\d+)\.(\d+)'
  - regex: '(Chrome)/(\d+)\.(\d+)'
  - regex: '(curl)'
  - regex: 'Strange'
    family_replacement: 'Other'
os_parsers:
  - regex: '(Windows NT) (\d+)'
    os_replacement: 'Windows'
  - regex: '(Linux)'
device_parsers:
  - regex: '(iPhone)'
"#;

fn rules() -> Vec<u8> {
    RULES.as_bytes().to_vec()
}

#[test]
fn browser_version_and_os_are_read() {
    let mut classifier = initialize(&rules()).unwrap();
    let parsed = parse_user_agent(
        &mut classifier,
        "Mozilla/5.0 (Windows NT 10.0; Win64; x64; rv:121.0) Gecko/20100101 Firefox/121.0",
    );
    assert_eq!(parsed.browser, "Firefox");
    assert_eq!(parsed.browser_version.as_deref(), Some("121"));
    assert_eq!(parsed.os, "Windows");
}

#[test]
fn first_matching_rule_counts() {
    let mut classifier = initialize(&rules()).unwrap();
    let parsed = parse_user_agent(
        &mut classifier,
        "Mozilla/5.0 (X11; Linux x86_64) AppleWebKit/537.36 Chrome/120.0.0.0 Safari/537.36",
    );
    assert_eq!(parsed.browser, "Chrome");
    assert_eq!(parsed.browser_version.as_deref(), Some("120"));
    assert_eq!(parsed.os, "Linux");
}

#[test]
fn version_may_be_missing() {
    let mut classifier = initialize(&rules()).unwrap();
    let parsed = parse_user_agent(&mut classifier, "curl");
    assert_eq!(parsed.browser, "curl");
    assert_eq!(parsed.browser_version, None);
    assert_eq!(parsed.os, "unknown");
}

#[test]
fn unmatched_user_agent_is_unknown() {
    let mut classifier = initialize(&rules()).unwrap();
    let parsed = parse_user_agent(&mut classifier, "something else entirely");
    assert_eq!(parsed.browser, "unknown");
    assert_eq!(parsed.browser_version, None);
    assert_eq!(parsed.os, "unknown");
    let strange = parse_user_agent(&mut classifier, "Strange agent");
    assert_eq!(strange.browser, "unknown");
}

#[test]
fn cached_answer_is_the_same() {
    let mut classifier = initialize(&rules()).unwrap();
    let agent = "Mozilla/5.0 (Windows NT 10.0) Chrome/99.1";
    let first = parse_user_agent(&mut classifier, agent);
    let second = parse_user_agent(&mut classifier, agent);
    let other = parse_user_agent(&mut classifier, "Mozilla/5.0 (Linux) Firefox/1.5");
    assert_eq!(first.browser, "Chrome");
    assert_eq!(first.browser_version.as_deref(), Some("99"));
    assert_eq!(first.os, "Windows");
    assert_eq!(second.browser, first.browser);
    assert_eq!(second.browser_version, first.browser_version);
    assert_eq!(second.os, first.os);
    assert_eq!(other.browser, "Firefox");
    assert_eq!(other.os, "Linux");
}

#[test]
fn rules_that_are_no_yaml_are_refused() {
    assert!(matches!(initialize(&b"{ not: [yaml".to_vec()), Err(RulesError::Invalid)));
    assert!(matches!(initialize(&Vec::new()), Err(RulesError::Invalid)));
}

#[test]
fn rules_with_a_bad_pattern_are_refused() {
    let bad = "user_agent_parsers:\n  - regex: '(unclosed'\nos_parsers: []\ndevice_parsers: []\n";
    assert!(matches!(initialize(&bad.as_bytes().to_vec()), Err(RulesError::Invalid)));
}
