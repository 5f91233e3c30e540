use uaparser::{
    BuildError, Client, Device, DeviceParserEntry, OSParserEntry, Parser, RegexFile, UserAgent,
    UserAgentParser, UserAgentParserEntry, OS,
};

fn ua_entry(regex: &str, family: Option<&str>) -> UserAgentParserEntry {
    UserAgentParserEntry {
        regex: regex.to_string(),
        family_replacement: family.map(String::from),
        v1_replacement: None,
        v2_replacement: None,
        v3_replacement: None,
    }
}

fn os_entry(regex: &str, family: Option<&str>) -> OSParserEntry {
    OSParserEntry {
        regex: regex.to_string(),
        os_replacement: family.map(String::from),
        os_v1_replacement: None,
        os_v2_replacement: None,
        os_v3_replacement: None,
    }
}

fn device_entry(regex: &str, flag: Option<&str>, family: Option<&str>) -> DeviceParserEntry {
    DeviceParserEntry {
        regex_flag: flag.map(String::from),
        regex: regex.to_string(),
        device_replacement: family.map(String::from),
        brand_replacement: None,
        model_replacement: None,
    }
}

fn file(
    user_agent_parsers: Vec<UserAgentParserEntry>,
    os_parsers: Vec<OSParserEntry>,
    device_parsers: Vec<DeviceParserEntry>,
) -> RegexFile {
    RegexFile { user_agent_parsers, os_parsers, device_parsers }
}

fn sample_file() -> RegexFile {
    file(
        vec![
            ua_entry(r"(Firefox)-4\.0/(\d+)\.(\d+)", Some("Firefox Mobile")),
            ua_entry(r"(Firefox)/(\d+)\.(\d+)", None),
        ],
        vec![os_entry(r"(Linux) (x86_64)", None)],
        vec![device_entry("iphone", Some("i"), Some("iPhone"))],
    )
}

const FIREFOX: &str =
    "Mozilla/5.0 (X11; Linux x86_64; rv:2.0b8pre) Gecko/20101031 Firefox-4.0/4.0b8pre";

fn ua(family: &str, major: Option<&str>, minor: Option<&str>, patch: Option<&str>) -> UserAgent {
    UserAgent {
        family: family.to_string(),
        major: major.map(String::from),
        minor: minor.map(String::from),
        patch: patch.map(String::from),
    }
}

#[test]
fn family_template_with_versions_from_groups() {
    let parser = UserAgentParser::try_from(sample_file()).expect("rules compile");
    assert_eq!(
        parser.parse_user_agent(FIREFOX),
        ua("Firefox Mobile", Some("4"), Some("0"), None)
    );
}

#[test]
fn case_insensitive_device_flag() {
    let parser = UserAgentParser::try_from(sample_file()).expect("rules compile");
    let text = "Mozilla/5.0 (iPhone; CPU iPhone OS 5_0 like Mac OS X)";
    assert_eq!(
        parser.parse_device(text),
        Device { family: "iPhone".to_string(), brand: None, model: None }
    );
}

#[test]
fn case_sensitive_device_rule_falls_through() {
    let rules = file(
        vec![],
        vec![],
        vec![
            device_entry("iphone", None, Some("iPhone")),
            device_entry("(iPhone)", None, None),
        ],
    );
    let parser = UserAgentParser::try_from(rules).expect("rules compile");
    let text = "Mozilla/5.0 (iPhone; CPU iPhone OS 5_0 like Mac OS X)";
    assert_eq!(
        parser.parse_device(text),
        Device {
            family: "iPhone".to_string(),
            brand: None,
            model: Some("iPhone".to_string()),
        }
    );
    let only = file(vec![], vec![], vec![device_entry("iphone", None, Some("iPhone"))]);
    let parser = UserAgentParser::try_from(only).expect("rules compile");
    assert_eq!(parser.parse_device(text), Device::default());
}

#[test]
fn empty_family_group_skips_rule() {
    let rules = file(
        vec![ua_entry(r"Mozilla()/(\d+)", None), ua_entry(r"(Mozilla)/(\d+)", None)],
        vec![],
        vec![],
    );
    let parser = UserAgentParser::try_from(rules).expect("rules compile");
    assert_eq!(parser.parse_user_agent("Mozilla/5.0"), ua("Mozilla", Some("5"), None, None));
}

#[test]
fn no_rule_matches_gives_defaults() {
    let parser = UserAgentParser::try_from(sample_file()).expect("rules compile");
    let client = parser.parse("curl/7.64.1");
    assert_eq!(
        client,
        Client { device: Device::default(), os: OS::default(), user_agent: UserAgent::default() }
    );
    assert_eq!(client.user_agent.family, "Other");
    assert_eq!(client.os.family, "Other");
    assert_eq!(client.device.family, "Other");
}

#[test]
fn escaped_slash_matches_slash() {
    let rules = file(vec![ua_entry(r"(Mozilla)\/(\d+)", None)], vec![], vec![]);
    let parser = UserAgentParser::try_from(rules).expect("rules compile");
    assert_eq!(parser.parse_user_agent("Mozilla/5.0"), ua("Mozilla", Some("5"), None, None));
}

#[test]
fn escaped_bang_and_space_are_normalized() {
    let rules = file(vec![ua_entry(r"(Hey\!)\ (\d+)", None)], vec![], vec![]);
    let parser = UserAgentParser::try_from(rules).expect("rules compile");
    assert_eq!(parser.parse_user_agent("say Hey! 12"), ua("Hey!", Some("12"), None, None));
}

#[test]
fn classification_is_repeatable() {
    let parser = UserAgentParser::try_from(sample_file()).expect("rules compile");
    assert_eq!(parser.parse(FIREFOX), parser.parse(FIREFOX));
    let client = parser.parse(FIREFOX);
    assert_eq!(client.user_agent, parser.parse_user_agent(FIREFOX));
    assert_eq!(client.os, parser.parse_os(FIREFOX));
    assert_eq!(client.device, parser.parse_device(FIREFOX));
}

#[test]
fn first_matching_rule_wins() {
    let rules = file(
        vec![ua_entry(r"(Firefox)", Some("First")), ua_entry(r"(Firefox)", Some("Second"))],
        vec![],
        vec![],
    );
    let parser = UserAgentParser::try_from(rules).expect("rules compile");
    assert_eq!(parser.parse_user_agent(FIREFOX).family, "First");
}

#[test]
fn os_versions_and_patch_minor() {
    let rules = file(
        vec![],
        vec![os_entry(r"(Windows NT) (\d+)\.(\d+)\.(\d+)\.(\d+)", Some("Windows"))],
        vec![],
    );
    let parser = UserAgentParser::try_from(rules).expect("rules compile");
    assert_eq!(
        parser.parse_os("Mozilla/5.0 (Windows NT 10.0.1.7)"),
        OS {
            family: "Windows".to_string(),
            major: Some("10".to_string()),
            minor: Some("0".to_string()),
            patch: Some("1".to_string()),
            patch_minor: Some("7".to_string()),
        }
    );
}

#[test]
fn os_family_from_group() {
    let parser = UserAgentParser::try_from(sample_file()).expect("rules compile");
    assert_eq!(
        parser.parse_os(FIREFOX),
        OS {
            family: "Linux".to_string(),
            major: Some("x86_64".to_string()),
            minor: None,
            patch: None,
            patch_minor: None,
        }
    );
}

#[test]
fn templates_expand_groups() {
    let rules = file(
        vec![UserAgentParserEntry {
            regex: r"(Chrome)/(\d+)\.(\d+)".to_string(),
            family_replacement: Some("$1 Mobile".to_string()),
            v1_replacement: Some("$3".to_string()),
            v2_replacement: Some("x$2".to_string()),
            v3_replacement: Some("".to_string()),
        }],
        vec![],
        vec![],
    );
    let parser = UserAgentParser::try_from(rules).expect("rules compile");
    assert_eq!(
        parser.parse_user_agent("Chrome/41.7"),
        ua("Chrome Mobile", Some("7"), Some("x41"), None)
    );
}

#[test]
fn device_brand_and_model() {
    let rules = file(
        vec![],
        vec![],
        vec![DeviceParserEntry {
            regex_flag: None,
            regex: r"; (SM-\w+) Build".to_string(),
            device_replacement: Some("Samsung $1".to_string()),
            brand_replacement: Some("Samsung".to_string()),
            model_replacement: None,
        }],
    );
    let parser = UserAgentParser::try_from(rules).expect("rules compile");
    assert_eq!(
        parser.parse_device("Mozilla/5.0 (Linux; Android 9; SM-G960F Build/PPR1)"),
        Device {
            family: "Samsung SM-G960F".to_string(),
            brand: Some("Samsung".to_string()),
            model: Some("SM-G960F".to_string()),
        }
    );
}

#[test]
fn empty_template_results_are_absent() {
    let rules = file(
        vec![],
        vec![],
        vec![DeviceParserEntry {
            regex_flag: Some(String::new()),
            regex: r"Phone(\d*)".to_string(),
            device_replacement: Some("Phone".to_string()),
            brand_replacement: Some("  $1 ".to_string()),
            model_replacement: Some("$1".to_string()),
        }],
    );
    let parser = UserAgentParser::try_from(rules).expect("rules compile");
    assert_eq!(
        parser.parse_device("a Phone here"),
        Device { family: "Phone".to_string(), brand: None, model: None }
    );
}

#[test]
fn excluded_facet_gives_default_and_others_unchanged() {
    let full = UserAgentParser::try_from(sample_file()).expect("rules compile");
    let partial = UserAgentParser::builder()
        .with_device(false)
        .build(sample_file())
        .expect("rules compile");
    let text = "Mozilla/5.0 (iPhone; X11; Linux x86_64) Firefox-4.0/4.0b8pre";
    assert_ne!(full.parse_device(text), Device::default());
    assert_eq!(partial.parse_device(text), Device::default());
    assert_eq!(partial.parse_os(text), full.parse_os(text));
    assert_eq!(partial.parse_user_agent(text), full.parse_user_agent(text));
}

#[test]
fn excluded_facet_is_not_compiled() {
    let rules = file(vec![ua_entry("(Firefox", None)], vec![], vec![]);
    assert!(UserAgentParser::builder().with_user_agent(false).build(rules).is_ok());
}

#[test]
fn malformed_pattern_fails_build_with_facet() {
    let bad_ua = file(vec![ua_entry("(Firefox", None)], vec![], vec![]);
    assert!(matches!(UserAgentParser::try_from(bad_ua), Err(BuildError::UserAgent(_))));
    let bad_os = file(vec![], vec![os_entry("[Linux", None)], vec![]);
    assert!(matches!(UserAgentParser::try_from(bad_os), Err(BuildError::OS(_))));
    let bad_device = file(vec![], vec![], vec![device_entry("(?z)x", None, None)]);
    assert!(matches!(UserAgentParser::try_from(bad_device), Err(BuildError::Device(_))));
}

#[test]
fn empty_table_builds() {
    let parser = UserAgentParser::try_from(file(vec![], vec![], vec![])).expect("empty table");
    assert_eq!(parser.parse_os("anything"), OS::default());
}

#[test]
fn without_unicode_support() {
    let parser = UserAgentParser::builder()
        .with_unicode_support(false)
        .build(sample_file())
        .expect("rules compile");
    assert_eq!(
        parser.parse_user_agent(FIREFOX),
        ua("Firefox Mobile", Some("4"), Some("0"), None)
    );
    let parser = UserAgentParser::builder()
        .with_os(false)
        .with_device(true)
        .build(sample_file())
        .expect("rules compile");
    assert_eq!(parser.parse_os(FIREFOX), OS::default());
}

#[test]
fn empty_family_from_template_is_kept() {
    let rules = file(vec![ua_entry(r"(Bot)/(\d+)", Some("  "))], vec![], vec![]);
    let parser = UserAgentParser::try_from(rules).expect("rules compile");
    assert_eq!(parser.parse_user_agent("Bot/3"), ua("", Some("3"), None, None));
}

#[test]
fn group_that_splits_a_character_reads_as_absent() {
    let rules = file(vec![ua_entry(r"^(.)", None), ua_entry(r"(\w+)", Some("Word $1"))], vec![], vec![]);
    let parser = UserAgentParser::builder()
        .with_unicode_support(false)
        .build(rules)
        .expect("rules compile");
    assert_eq!(parser.parse_user_agent("é"), UserAgent::default());
    let rules = file(vec![ua_entry(r"^(.)", None)], vec![], vec![]);
    let parser = UserAgentParser::try_from(rules).expect("rules compile");
    assert_eq!(parser.parse_user_agent("é"), ua("é", None, None, None));
}

#[test]
fn non_ascii_text_in_groups() {
    let rules = file(vec![], vec![], vec![device_entry(r"; (\w+) Build", None, None)]);
    let parser = UserAgentParser::try_from(rules).expect("rules compile");
    assert_eq!(
        parser.parse_device("Mozilla/5.0 (Linux; Ñandú Build/1)"),
        Device {
            family: "Ñandú".to_string(),
            brand: None,
            model: Some("Ñandú".to_string()),
        }
    );
}

#[test]
fn build_error_reports_normalized_pattern() {
    let bad = file(vec![ua_entry(r"ok", None), ua_entry(r"(Fire\/fox", None)], vec![], vec![]);
    match UserAgentParser::try_from(bad) {
        Err(BuildError::UserAgent(uaparser::parser::user_agent::RuleError::Regex {
            pattern,
            ..
        })) => assert_eq!(pattern, "(Fire/fox"),
        other => panic!("unexpected outcome: {:?}", other.map(|_| ())),
    }
    let bad_device = file(vec![], vec![], vec![device_entry("x(", Some("i"), None)]);
    match UserAgentParser::try_from(bad_device) {
        Err(BuildError::Device(uaparser::parser::device::RuleError::Regex { pattern, .. })) => {
            assert_eq!(pattern, "(?i)x(")
        },
        other => panic!("unexpected outcome: {:?}", other.map(|_| ())),
    }
}

#[test]
fn device_error_comes_before_os_error() {
    let bad = file(vec![], vec![os_entry("[", None)], vec![device_entry("(", None, None)]);
    assert!(matches!(UserAgentParser::try_from(bad), Err(BuildError::Device(_))));
    let bad = file(vec![], vec![os_entry("[", None)], vec![device_entry("(", None, None)]);
    assert!(matches!(
        UserAgentParser::builder().with_device(false).build(bad),
        Err(BuildError::OS(_))
    ));
}

#[test]
fn empty_device_flag_is_no_flag() {
    let text = "Mozilla/5.0 (iPhone)";
    let flagged = file(vec![], vec![], vec![device_entry("iphone", Some(""), Some("iPhone"))]);
    let plain = file(vec![], vec![], vec![device_entry("iphone", None, Some("iPhone"))]);
    let flagged = UserAgentParser::try_from(flagged).expect("rules compile");
    let plain = UserAgentParser::try_from(plain).expect("rules compile");
    assert_eq!(flagged.parse_device(text), plain.parse_device(text));
    assert_eq!(flagged.parse_device(text), Device::default());
}
