//! Tests of blocklist parsing and decimal rendering.

use blocklist_import::blocklist::parse_blocklist;
use blocklist_import::decimal::usize_to_string;

#[test]
fn parse_trims_and_discards_empties() {
    let ips = parse_blocklist("1.1.1.1, 2.2.2.2 ,, 3.3.3.3");
    assert_eq!(ips, vec!["1.1.1.1", "2.2.2.2", "3.3.3.3"]);
}

#[test]
fn parse_empty_string_yields_nothing() {
    let ips = parse_blocklist("");
    assert!(ips.is_empty());
}

#[test]
fn parse_only_commas_and_whitespace_yields_nothing() {
    assert!(parse_blocklist(",,,").is_empty());
    assert!(parse_blocklist("   ").is_empty());
    assert!(parse_blocklist(" , \t ,\n,").is_empty());
}

#[test]
fn parse_single_token_without_comma() {
    let ips = parse_blocklist("  10.0.0.1  ");
    assert_eq!(ips, vec!["10.0.0.1"]);
}

#[test]
fn parse_handles_tabs_and_newlines() {
    let ips = parse_blocklist("\t1.2.3.4\n,\r\n5.6.7.8\t");
    assert_eq!(ips, vec!["1.2.3.4", "5.6.7.8"]);
}

#[test]
fn parse_keeps_duplicates_and_order() {
    let ips = parse_blocklist("9.9.9.9,8.8.8.8,9.9.9.9");
    assert_eq!(ips, vec!["9.9.9.9", "8.8.8.8", "9.9.9.9"]);
}

#[test]
fn parse_preserves_interior_whitespace_of_a_token() {
    let ips = parse_blocklist(" a b ,c");
    assert_eq!(ips, vec!["a b", "c"]);
}

#[test]
fn decimal_renders_exactly() {
    assert_eq!(usize_to_string(0), "0");
    assert_eq!(usize_to_string(7), "7");
    assert_eq!(usize_to_string(10), "10");
    assert_eq!(usize_to_string(42), "42");
    assert_eq!(usize_to_string(90210), "90210");
}
