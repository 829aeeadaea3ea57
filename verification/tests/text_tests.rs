use bcnotif::err::{is_file_nonexistant, Error};
use bcnotif::scrape::ScrapeError;
use bcnotif::text::{parse_u32, str_eq, str_eq_ignore_ascii_case, trim_end, u32_to_string};
use bcnotif::time::{current_hour, current_weekday, now_timestamp};

#[test]
fn parse_u32_accepts_digit_strings() {
    assert_eq!(parse_u32("0"), Some(0));
    assert_eq!(parse_u32("120"), Some(120));
    assert_eq!(parse_u32("4294967295"), Some(u32::MAX));
}

#[test]
fn parse_u32_rejects_bad_input() {
    assert_eq!(parse_u32(""), None);
    assert_eq!(parse_u32("12a"), None);
    assert_eq!(parse_u32(" 12"), None);
    assert_eq!(parse_u32("-5"), None);
    // One past u32::MAX overflows.
    assert_eq!(parse_u32("4294967296"), None);
    assert_eq!(parse_u32("99999999999999999999"), None);
}

#[test]
fn decimal_rendering() {
    assert_eq!(u32_to_string(0), "0");
    assert_eq!(u32_to_string(7), "7");
    assert_eq!(u32_to_string(105), "105");
    assert_eq!(u32_to_string(u32::MAX), "4294967295");
}

#[test]
fn trim_end_strips_ascii_whitespace() {
    assert_eq!(trim_end("120 \t\r\n"), "120");
    assert_eq!(trim_end("120"), "120");
    assert_eq!(trim_end("  "), "");
    assert_eq!(trim_end(""), "");
    assert_eq!(trim_end(" a b "), " a b");
}

#[test]
fn string_comparisons() {
    assert!(str_eq("abc", "abc"));
    assert!(!str_eq("abc", "abd"));
    assert!(!str_eq("abc", "ab"));
    assert!(str_eq_ignore_ascii_case("Los Angeles", "los angeles"));
    assert!(str_eq_ignore_ascii_case("ABC-9", "abc-9"));
    assert!(!str_eq_ignore_ascii_case("abc", "abd"));
    assert!(!str_eq_ignore_ascii_case("abc", "abcd"));
}

#[test]
fn error_kind_predicate() {
    assert!(is_file_nonexistant(&Error::FileNotFound(String::from("config.toml"))));
    assert!(!is_file_nonexistant(&Error::FileIO(String::from("denied"))));
    assert!(!is_file_nonexistant(&Error::ConfigDecode(String::from("bad toml"))));
    assert!(!is_file_nonexistant(&Error::Http(String::from("status 500"))));
    assert!(!is_file_nonexistant(&Error::Scrape(ScrapeError::NoFeeds)));
    assert!(!is_file_nonexistant(&Error::Database(String::from("locked"))));
}

#[test]
fn clock_wrappers_answer() {
    // The wall clock is whatever it is; the hour is promised to be 0..=23.
    let hour = current_hour();
    assert!(hour < 24);
    let _ = now_timestamp();
    let _ = current_weekday();
}
