use vibe_edit::{
    filters_from_response, filters_from_text, request_around, request_body, response_text,
};

#[test]
fn request_embeds_prompt_escaped() {
    assert_eq!(
        request_body("say \"hi\""),
        "{\"contents\":[{\"parts\":[{\"text\":\"Return ONLY JSON: {\\\"filters\\\":[\\\"ffmpeg_filter_1\\\",\\\"ffmpeg_filter_2\\\",\\\"ffmpeg_filter_3\\\"]} for this prompt: say \\\"hi\\\"\"}]}]}"
    );
}

#[test]
fn response_text_reads_first_part() {
    let body = br#"{"candidates":[{"content":{"parts":[{"text":"inner"},{"text":"other"}]}},{"content":{"parts":[{"text":"second"}]}}]}"#;
    assert_eq!(response_text(body), Some("inner".to_string()));
}

#[test]
fn response_text_rejects_bad_envelopes() {
    assert_eq!(response_text(b"not json"), None);
    assert_eq!(response_text(br#"{"candidates":[]}"#), None);
    assert_eq!(response_text(br#"{"candidates":[{"content":{"parts":[]}}]}"#), None);
    assert_eq!(response_text(br#"{"candidates":[{"content":{"parts":[{"text":3}]}}]}"#), None);
}

#[test]
fn inner_filters_keep_strings_only() {
    assert_eq!(
        filters_from_text(r#"{"filters":["a",1,"b",null,"c","d"]}"#),
        Some(vec!["a".to_string(), "b".to_string(), "c".to_string(), "d".to_string()])
    );
    assert_eq!(filters_from_text(r#"{"filters":[]}"#), Some(vec![]));
}

#[test]
fn inner_filters_reject_bad_text() {
    assert_eq!(filters_from_text("```json nope"), None);
    assert_eq!(filters_from_text(r#"{"other":["a"]}"#), None);
    assert_eq!(filters_from_text(r#"{"filters":"a"}"#), None);
}

#[test]
fn response_through_both_stages() {
    let body = br#"{"candidates":[{"content":{"parts":[{"text":"{\"filters\":[\"eq=contrast=1.2\",\"vignette\"]}"}]}}]}"#;
    assert_eq!(
        filters_from_response(body),
        Some(vec!["eq=contrast=1.2".to_string(), "vignette".to_string()])
    );
    let bad_inner = br#"{"candidates":[{"content":{"parts":[{"text":"not json"}]}}]}"#;
    assert_eq!(filters_from_response(bad_inner), None);
}

#[test]
fn envelope_wraps_quoted_instruction() {
    assert_eq!(request_around("\"x\""), "{\"contents\":[{\"parts\":[{\"text\":\"x\"}]}]}");
}

#[test]
fn request_escapes_control_characters() {
    let body = request_body("a\tb\n\u{1}\\ \u{7f}");
    assert!(body.ends_with("for this prompt: a\\tb\\n\\u0001\\\\ \u{7f}\"}]}]}"));
}

#[test]
fn response_with_missing_text_field_gives_nothing() {
    assert_eq!(response_text(br#"{"candidates":[{"content":{"parts":[{"data":"x"}]}}]}"#), None);
    assert_eq!(response_text(br#"{"candidates":{"content":1}}"#), None);
    assert_eq!(filters_from_response(br#"{"candidates":[]}"#), None);
}
