use os_rebuild::update::needs_selector;
use os_rebuild::version::{
    check_identifier, check_tag, digit_of, parse_number, parse_version, version_in_report, Version,
};

fn release(major: u64, minor: u64, patch: u64) -> Version {
    Version { major, minor, patch, pre_release: false }
}

#[test]
fn plain_versions_are_read() {
    assert_eq!(parse_version("2.19.0"), Some(release(2, 19, 0)));
    assert_eq!(parse_version("0.0.0"), Some(release(0, 0, 0)));
    assert_eq!(parse_version("10.200.3000"), Some(release(10, 200, 3000)));
}

#[test]
fn pre_release_and_build_tags_are_read() {
    assert_eq!(
        parse_version("2.19.0-rc.1"),
        Some(Version { major: 2, minor: 19, patch: 0, pre_release: true })
    );
    assert_eq!(parse_version("2.19.0+build.5"), Some(release(2, 19, 0)));
    assert_eq!(
        parse_version("1.0.0-alpha-1+sha-abc.001"),
        Some(Version { major: 1, minor: 0, patch: 0, pre_release: true })
    );
}

#[test]
fn malformed_versions_are_refused() {
    for text in [
        "", "2", "2.19", "2.19.0.1", "2..0", ".1.2", "1.2.", "a.b.c", "2.19.x", "02.19.0",
        "2.019.0", "2.19.00", "2.19.0-", "2.19.0+", "2.19.0-rc..1", "2.19.0-01", "2.19.0-rc_1",
        "2.19.0+a+b", "2.19.0 ", " 2.19.0", "v2.19.0", "2.19.0pre20231005",
    ] {
        assert_eq!(parse_version(text), None, "{:?}", text);
    }
}

#[test]
fn numbers_beyond_u64_are_refused() {
    assert_eq!(parse_number("18446744073709551615"), Some(u64::MAX));
    assert_eq!(parse_number("18446744073709551616"), None);
    assert_eq!(parse_number("99999999999999999999999"), None);
    assert_eq!(parse_version("18446744073709551616.0.0"), None);
}

#[test]
fn numeric_identifiers_have_no_leading_zero() {
    assert_eq!(parse_number("0"), Some(0));
    assert_eq!(parse_number("7"), Some(7));
    assert_eq!(parse_number("007"), None);
    assert_eq!(parse_number("00"), None);
    assert_eq!(parse_number(""), None);
    assert_eq!(parse_number("1a"), None);
    assert_eq!(parse_number("-1"), None);
}

#[test]
fn digits_have_their_values() {
    assert_eq!(digit_of('0'), Some(0));
    assert_eq!(digit_of('9'), Some(9));
    assert_eq!(digit_of('a'), None);
    assert_eq!(digit_of('/'), None);
    assert_eq!(digit_of(':'), None);
}

#[test]
fn identifiers_are_checked() {
    assert!(check_identifier("rc1", true));
    assert!(check_identifier("0", true));
    assert!(!check_identifier("01", true));
    assert!(check_identifier("01", false));
    assert!(check_identifier("0a", true));
    assert!(!check_identifier("", true));
    assert!(!check_identifier("", false));
    assert!(!check_identifier("a.b", false));
    assert!(check_tag("a.b-c.0", true));
    assert!(!check_tag("a..b", true));
    assert!(!check_tag("", false));
}

#[test]
fn precedence_against_a_release() {
    let v = release(2, 19, 0);
    assert!(v.is_at_least(2, 19, 0));
    assert!(v.is_at_least(2, 18, 9));
    assert!(v.is_at_least(1, 99, 99));
    assert!(!v.is_at_least(2, 19, 1));
    assert!(!v.is_at_least(2, 20, 0));
    assert!(!v.is_at_least(3, 0, 0));
    let pre = Version { major: 2, minor: 19, patch: 0, pre_release: true };
    assert!(!pre.is_at_least(2, 19, 0));
    assert!(pre.is_at_least(2, 18, 0));
}

#[test]
fn versions_compare_by_number_not_by_text() {
    assert_eq!(needs_selector("2.9.0"), Some(false));
    assert_eq!(needs_selector("2.100.0"), Some(true));
    assert_eq!(needs_selector("10.0.0"), Some(true));
}

#[test]
fn the_selector_is_needed_from_2_19_0_on() {
    assert_eq!(needs_selector("2.18.9"), Some(false));
    assert_eq!(needs_selector("2.19.0"), Some(true));
    assert_eq!(needs_selector("2.19.1"), Some(true));
    assert_eq!(needs_selector("2.19.0-pre"), Some(false));
    assert_eq!(needs_selector("2.19.1-pre"), Some(true));
    assert_eq!(needs_selector("3.0.0"), Some(true));
    assert_eq!(needs_selector("1.99.99"), Some(false));
    assert_eq!(needs_selector("lix"), None);
    assert_eq!(needs_selector(""), None);
}

#[test]
fn the_version_is_the_last_word_of_the_first_line() {
    assert_eq!(version_in_report("nix (Nix) 2.18.1\n"), Some("2.18.1".to_string()));
    assert_eq!(version_in_report("nix (Lix, like Nix) 2.91.0"), Some("2.91.0".to_string()));
    assert_eq!(version_in_report("2.19.0\nfeatures: gc\n"), Some("2.19.0".to_string()));
    assert_eq!(version_in_report(""), None);
    assert_eq!(version_in_report("\n2.19.0\n"), None);
    assert_eq!(version_in_report("   \n"), None);
}
