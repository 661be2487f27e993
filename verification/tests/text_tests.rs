use skater_scrape::filter::year_option_xpath;
use skater_scrape::text::{
    compose_birth_date, extract_second_segment, str_contains_str, str_starts_with, trim_str,
    u64_decimal,
};

#[test]
fn second_segment_of_name_anchor_label() {
    let got = extract_second_segment("12345 | Ivan Ivanov");
    assert_eq!(got, Some("Ivan Ivanov".to_string()));
}

#[test]
fn second_segment_takes_the_second_of_many() {
    let got = extract_second_segment("a| b |c");
    assert_eq!(got, Some("b".to_string()));
}

#[test]
fn second_segment_missing_without_pipe() {
    assert_eq!(extract_second_segment("Ivan Ivanov"), None);
    assert_eq!(extract_second_segment(""), None);
}

#[test]
fn trim_removes_leading_and_trailing_spaces() {
    assert_eq!(trim_str("  Ivan Ivanov \t"), "Ivan Ivanov");
    assert_eq!(trim_str("x"), "x");
    assert_eq!(trim_str(" \t\n\r "), "");
    assert_eq!(trim_str(""), "");
}

#[test]
fn birth_date_is_day_month_year_with_single_spaces() {
    let got = compose_birth_date("15", "03", "1998");
    assert_eq!(got, "15 03 1998");
}

#[test]
fn substring_search_finds_disabled() {
    assert!(str_contains_str("paginate_button next disabled", "disabled"));
    assert!(!str_contains_str("paginate_button next", "disabled"));
    assert!(str_contains_str("disabled", "disabled"));
    assert!(!str_contains_str("disable", "disabled"));
}

#[test]
fn prefix_test_on_row_classes() {
    assert!(str_starts_with("row-1 odd", "row-"));
    assert!(!str_starts_with("group-head", "row-"));
    assert!(!str_starts_with("ro", "row-"));
}

#[test]
fn decimal_numerals() {
    assert_eq!(u64_decimal(0), "0");
    assert_eq!(u64_decimal(7), "7");
    assert_eq!(u64_decimal(2015), "2015");
    assert_eq!(u64_decimal(18446744073709551615), "18446744073709551615");
}

#[test]
fn xpath_for_one_filter_year() {
    assert_eq!(
        year_option_xpath(2010),
        "//select[@class='widget-1']/option[@value='2010']"
    );
}
