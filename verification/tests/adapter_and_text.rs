//! The vendor adapters' fixed data and the pure text operations.

use netcli::text::{split_lines, str_contains, str_eq, str_starts_with, strip_echo};
use netcli::{ConnectConfig, Vendor};

#[test]
fn vendor_from_name_parses_lower_case_tags() {
    assert_eq!(Vendor::from_name("aruba"), Some(Vendor::Aruba));
    assert_eq!(Vendor::from_name("cisco"), Some(Vendor::Cisco));
    assert_eq!(Vendor::from_name("h3c"), Some(Vendor::H3C));
    assert_eq!(Vendor::from_name("huawei"), Some(Vendor::Huawei));
    assert_eq!(Vendor::from_name("ruijie"), Some(Vendor::Ruijie));
    assert_eq!(Vendor::from_name("H3C"), None);
    assert_eq!(Vendor::from_name("juniper"), None);
    assert_eq!(Vendor::from_name(""), None);
}

#[test]
fn default_config_has_no_enable_password() {
    let config = ConnectConfig::default();
    assert!(config.enable_password.is_none());
}

#[test]
fn strip_echo_removes_exactly_the_leading_echo() {
    assert_eq!(strip_echo("display version\r\nH3C E528\r\n", "display version\r\n"), "H3C E528\r\n");
    assert_eq!(strip_echo("no echo here", "display version\r\n"), "no echo here");
    assert_eq!(strip_echo("", "x\r\n"), "");
    // Only a leading match counts.
    assert_eq!(strip_echo("y display version\r\n", "display version\r\n"), "y display version\r\n");
}

#[test]
fn contains_and_starts_with() {
    assert!(str_contains("abc % marker. def", "% marker."));
    assert!(!str_contains("abc", "abcd"));
    assert!(str_contains("anything", ""));
    assert!(str_starts_with("Log Buffer (Total)", "Log Buffer "));
    assert!(!str_starts_with("log buffer", "Log Buffer "));
    assert!(str_eq("same", "same"));
    assert!(!str_eq("same", "sama"));
}

#[test]
fn split_lines_matches_line_conventions() {
    let lines = split_lines("a\r\nb\nc");
    assert_eq!(lines, vec!["a", "b", "c"]);
    assert_eq!(split_lines(""), Vec::<String>::new());
    assert_eq!(split_lines("one\n"), vec!["one"]);
    assert_eq!(split_lines("\r\n"), vec![""]);
    assert_eq!(split_lines("tail\r"), vec!["tail\r"]);
}
