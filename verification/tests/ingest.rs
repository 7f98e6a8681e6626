use webhook_funnel::ingest::accept_body;
use webhook_funnel::parser::parse_json_using_any_parser;

#[test]
fn json_body_is_accepted_as_received() {
    let body = br#"{"object_kind":"push",   "commits":[{"id":"a1"}]}"#;
    assert_eq!(
        accept_body(body),
        Some(r#"{"object_kind":"push",   "commits":[{"id":"a1"}]}"#.to_string())
    );
}

#[test]
fn accepted_body_keeps_its_spacing_and_order() {
    let body = "  {\n\t\"b\" : 1 ,\r\n \"a\":[ ]\n}  \n";
    assert_eq!(accept_body(body.as_bytes()), Some(body.to_string()));
}

#[test]
fn scalar_json_body_is_accepted() {
    assert_eq!(accept_body(b"  42 "), Some("  42 ".to_string()));
    assert_eq!(accept_body(b"\"text\""), Some("\"text\"".to_string()));
    assert_eq!(accept_body(b"null"), Some("null".to_string()));
}

#[test]
fn body_that_is_no_json_is_rejected() {
    assert_eq!(accept_body(b"object_kind=push"), None);
    assert_eq!(accept_body(b"{\"a\":"), None);
    assert_eq!(accept_body(b""), None);
}

#[test]
fn body_that_is_no_utf8_is_rejected() {
    assert_eq!(accept_body(&[0xff, 0xfe, 0x00]), None);
    assert_eq!(accept_body(&[b'"', 0xc3, 0x28, b'"']), None);
    assert_eq!(accept_body(&[b'"', 0xed, 0xa0, 0x80, b'"']), None);
}

#[test]
fn utf8_body_keeps_its_characters() {
    let body = "{\"title\":\"gr\u{f6}\u{df}er\"}";
    assert_eq!(accept_body(body.as_bytes()), Some(body.to_string()));
}

#[test]
fn accepted_body_is_rendered_like_the_body_itself() {
    let body = br#"{"object_kind":"note","user_username":"u","project":{"web_url":"w"}}"#;
    let event = accept_body(body).unwrap();
    assert_eq!(
        parse_json_using_any_parser(&event),
        parse_json_using_any_parser(std::str::from_utf8(body).unwrap())
    );
}

#[test]
fn body_with_a_fraction_that_cannot_be_counted_is_rejected() {
    let body = format!("0.{}", "0".repeat(32_769));
    assert_eq!(accept_body(body.as_bytes()), None);
    let nested = format!("{{\"a\":[1,-0.{}5e3]}}", "0".repeat(40_000));
    assert_eq!(accept_body(nested.as_bytes()), None);
    let late = format!("0.{}1", "0".repeat(32_768));
    assert_eq!(accept_body(late.as_bytes()), None);
    let later = format!("0.{}12345678901234567890", "0".repeat(32_760));
    assert_eq!(accept_body(later.as_bytes()), None);
}

#[test]
fn body_with_the_most_digits_that_can_be_counted_is_accepted() {
    let zeros = format!("0.{}", "0".repeat(32_768));
    assert_eq!(accept_body(zeros.as_bytes()), Some(zeros.clone()));
    let one = format!("[-0.{}1]", "0".repeat(32_767));
    assert_eq!(accept_body(one.as_bytes()), Some(one.clone()));
    let full = format!("0.{}12345678901234567890123", "0".repeat(32_748));
    assert_eq!(accept_body(full.as_bytes()), Some(full.clone()));
}

#[test]
fn long_fraction_behind_another_whole_part_is_accepted() {
    let body = format!("1.{}", "0".repeat(100_000));
    assert_eq!(accept_body(body.as_bytes()), Some(body.clone()));
    let half = format!("{{\"a\":0.5{}}}", "0".repeat(100_000));
    assert_eq!(accept_body(half.as_bytes()), Some(half.clone()));
    let ten = format!("[10.{}]", "0".repeat(50_000));
    assert_eq!(accept_body(ten.as_bytes()), Some(ten.clone()));
}

#[test]
fn long_run_of_digits_inside_a_string_is_accepted() {
    let body = format!("\"{}\"", "7".repeat(100_000));
    assert_eq!(accept_body(body.as_bytes()), Some(body.clone()));
    let fraction = format!("{{\"k\":\"0.{}\"}}", "0".repeat(100_000));
    assert_eq!(accept_body(fraction.as_bytes()), Some(fraction.clone()));
    let escaped = format!("[\"a\\\"0.{}\\\\\", 0.5]", "0".repeat(40_000));
    assert_eq!(accept_body(escaped.as_bytes()), Some(escaped.clone()));
    let pair = format!("\"\\ud83d\\ude00 0.{}\"", "0".repeat(40_000));
    assert_eq!(accept_body(pair.as_bytes()), Some(pair.clone()));
}

#[test]
fn body_with_many_short_runs_of_digits_is_accepted() {
    let body = format!("[{}0]", "123456789,".repeat(10_000));
    assert_eq!(accept_body(body.as_bytes()), Some(body.clone()));
    let fractions = format!("[{}0]", "0.000,".repeat(20_000));
    assert_eq!(accept_body(fractions.as_bytes()), Some(fractions.clone()));
}

#[test]
fn whole_number_of_too_many_digits_is_no_json() {
    let body = format!("1{}", "0".repeat(40_000));
    assert_eq!(accept_body(body.as_bytes()), None);
    let shorter = format!("1{}", "0".repeat(30_000));
    assert_eq!(accept_body(shorter.as_bytes()), Some(shorter.clone()));
}
