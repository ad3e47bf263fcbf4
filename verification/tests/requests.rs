use cooldown_relay::request::build_request;
use cooldown_relay::request::placeholder_text;
use cooldown_relay::request::substitute_prompt;
use cooldown_relay::request::RequestError;
use cooldown_relay::textscan::find_first;
use cooldown_relay::textscan::replace_first;

fn sample_template() -> String {
    format!(
        "{{\"model\":\"mistral-small\",\"temperature\":0.7,\"messages\":[{{\"role\":\"user\",\"content\":{}}}]}}",
        placeholder_text()
    )
}

#[test]
fn prompt_is_substituted_quoted_into_the_template() {
    let template = sample_template();
    let body = substitute_prompt(&template, "hello there");
    assert!(body.contains("\"content\":\"hello there\""));
    assert!(!body.contains("French painter"));
}

#[test]
fn template_without_placeholder_is_unchanged() {
    let template = "{\"messages\":[]}";
    assert_eq!(substitute_prompt(template, "hi"), template);
}

#[test]
fn build_request_parses_the_substituted_document() {
    let template = sample_template();
    let value = build_request(&template, "hello there").expect("template must parse");
    assert_eq!(value["messages"][0]["content"], serde_json::Value::String("hello there".to_string()));
    assert_eq!(value["model"], serde_json::Value::String("mistral-small".to_string()));
}

#[test]
fn build_request_rejects_a_template_that_is_not_json() {
    let template = "not a json document";
    assert_eq!(build_request(template, "hi"), Err(RequestError::TemplateNotJson));
}

#[test]
fn unescaped_quote_in_the_prompt_breaks_the_document() {
    // The prompt is spliced in verbatim, so a double quote inside it
    // ends the JSON string early: documented brittle behavior.
    let template = sample_template();
    assert_eq!(build_request(&template, "he said \"hi\""), Err(RequestError::TemplateNotJson));
}

#[test]
fn find_first_returns_the_earliest_occurrence() {
    assert_eq!(find_first("abcabc", "bc"), Some(1));
    assert_eq!(find_first("abcabc", "cb"), None);
    assert_eq!(find_first("abc", ""), Some(0));
    assert_eq!(find_first("", "a"), None);
}

#[test]
fn replace_first_touches_only_the_first_occurrence() {
    assert_eq!(replace_first("one two one", "one", "1"), "1 two one");
    assert_eq!(replace_first("one two", "three", "3"), "one two");
    assert_eq!(replace_first("ababa", "aba", "X"), "Xba");
}
