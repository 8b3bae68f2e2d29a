use pipeline_monitor::text::{decimal_text, is_quotable, node_name_to_dot_id, parse_decimal};

#[test]
fn decimal_numerals() {
    assert_eq!(decimal_text(0), "0");
    assert_eq!(decimal_text(7), "7");
    assert_eq!(decimal_text(1234567), "1234567");
    assert_eq!(decimal_text(u64::MAX), "18446744073709551615");
}

#[test]
fn dot_ids_quote_verbatim() {
    assert_eq!(node_name_to_dot_id("A"), "\"A\"");
    assert_eq!(node_name_to_dot_id("read csv"), "\"read csv\"");
    assert_eq!(node_name_to_dot_id(""), "\"\"");
    assert!(is_quotable("read csv"));
    assert!(!is_quotable("say \"hi\""));
}

#[test]
fn decimal_parsing() {
    assert_eq!(parse_decimal("62"), Some(62));
    assert_eq!(parse_decimal("0"), Some(0));
    assert_eq!(parse_decimal(""), None);
    assert_eq!(parse_decimal("12a"), None);
    assert_eq!(parse_decimal("18446744073709551615"), Some(usize::MAX));
    assert_eq!(parse_decimal("18446744073709551616"), None);
}
