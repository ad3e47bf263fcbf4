use cooldown_relay::extract::extract;
use cooldown_relay::extract::fallback_text;

const FALLBACK: &str = "Sorry, I couldn't generate a response.";

#[test]
fn round_trip_recovers_the_message_text() {
    let raw = "{\"choices\":[{\"message\":{\"role\":\"assistant\",\"content\":\"hello world}]}";
    assert_eq!(extract(raw), "hello world");
}

#[test]
fn closing_quote_before_brace_is_kept() {
    // The naive cut stops at the brace, so the string's own closing
    // quote rides along with the text.
    let raw = "{\"message\":{\"content\":\"hello world\"}}";
    assert_eq!(extract(raw), "hello world\"");
}

#[test]
fn body_without_marker_falls_back() {
    let raw = "{\"error\":\"rate limited\"}";
    assert_eq!(extract(raw), FALLBACK);
    assert_eq!(fallback_text(), FALLBACK);
}

#[test]
fn empty_body_falls_back() {
    assert_eq!(extract(""), FALLBACK);
}

#[test]
fn embedded_brace_truncates_early() {
    // A brace inside the message ends the cut before the real
    // terminator: documented brittle behavior.
    let raw = "{\"content\":\"a}b\"}";
    assert_eq!(extract(raw), "a");
}

#[test]
fn marker_with_no_brace_left_on_its_line_falls_back() {
    let raw = "prefix content\":\"dangling text\nnext line }";
    assert_eq!(extract(raw), FALLBACK);
}

#[test]
fn marker_at_end_of_body_falls_back() {
    let raw = "data content\":\"tail with no terminator";
    assert_eq!(extract(raw), FALLBACK);
}

#[test]
fn first_marker_wins() {
    let raw = "content\":\"first}\ncontent\":\"second}";
    assert_eq!(extract(raw), "first");
}

#[test]
fn empty_message_text_is_recovered() {
    let raw = "{\"content\":\"}";
    assert_eq!(extract(raw), "");
}
