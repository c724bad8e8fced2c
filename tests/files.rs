use libcnb::phase::parse_api_version;
use libcnb::{annotation_pattern, has_annotation, join, ApiVersion, LifecycleMode};

#[test]
fn test_join() {
    let data = join("THIS\nIS\nDIS\nJOINTED\n".as_bytes()).unwrap();
    let text = String::from_utf8(data).unwrap();
    assert_eq!(text, "THISISDISJOINTED");
}

#[test]
fn join_drops_crlf_and_keeps_unterminated_tail() {
    assert_eq!(join(b"a\r\nb\r\nc").unwrap(), b"abc".to_vec());
    assert_eq!(join(b"a\r").unwrap(), b"a\r".to_vec());
    assert_eq!(join(b"").unwrap(), Vec::<u8>::new());
    assert_eq!(join(b"\n\n").unwrap(), Vec::<u8>::new());
}

#[test]
fn join_skips_lines_that_are_not_utf8() {
    assert_eq!(join(b"ok\n\xff\xfe\nfine").unwrap(), b"okfine".to_vec());
}

#[test]
fn test_regex_pattern() {
    let m = |t: &str| has_annotation(t, "IsTest").unwrap();
    assert!(m("@IsTest\npublic class Yoda {}"));
    assert!(m("@isTest\npublic class Yoda {}"));
    assert!(m("@ISTEST public class Yoda {\n  @istest\nprivate static void testIt() {}\n}"));
    assert!(!m("@IsTesty\npublic class Yoda {}"));
    assert!(!m("IsTest public class Yoda {}"));
    assert!(!m("@ IsTest public class Yoda {}"));
}

#[test]
fn annotation_pattern_text() {
    assert_eq!(annotation_pattern("IsTest"), r"@(\b)(?i:IsTest)(\b)");
    assert_eq!(has_annotation("x", "("), None);
}

#[test]
fn lifecycle_mode_names() {
    assert_eq!(LifecycleMode::from_name("dev"), Some(LifecycleMode::Dev));
    assert_eq!(LifecycleMode::from_name("DEV"), Some(LifecycleMode::Dev));
    assert_eq!(LifecycleMode::from_name("TeSt"), Some(LifecycleMode::Test));
    assert_eq!(LifecycleMode::from_name("Package"), Some(LifecycleMode::Package));
    assert_eq!(LifecycleMode::from_name("ci"), Some(LifecycleMode::CI));
    assert_eq!(LifecycleMode::from_name("CI"), Some(LifecycleMode::CI));
    assert_eq!(LifecycleMode::from_name("prod"), None);
    assert_eq!(LifecycleMode::from_name(""), None);
    assert_eq!(LifecycleMode::from_name("devx"), None);
    assert_eq!(LifecycleMode::Package.as_str(), "Package");
    assert_eq!(LifecycleMode::CI.as_str(), "CI");
    assert_eq!(LifecycleMode::or_default(None), LifecycleMode::CI);
    assert_eq!(LifecycleMode::or_default(Some(LifecycleMode::Dev)), LifecycleMode::Dev);
}

#[test]
fn api_versions_parse() {
    assert_eq!(parse_api_version("0.6"), Some(ApiVersion { major: 0, minor: 6 }));
    assert_eq!(parse_api_version("12.345"), Some(ApiVersion { major: 12, minor: 345 }));
    assert_eq!(parse_api_version("0."), None);
    assert_eq!(parse_api_version(".6"), None);
    assert_eq!(parse_api_version("06"), None);
    assert_eq!(parse_api_version("0.6.1"), None);
    assert_eq!(parse_api_version("a.6"), None);
    assert_eq!(parse_api_version("99999999999999999999.1"), None);
}
