use ollama_turbo::json::JsonValue;
use ollama_turbo::ollama::{
    forwarded_text, listing_names, reply_text_from,
    base_url, chunk_messages, generate_reply, generate_url, max_tokens_or_default, model_names,
    relay_step, stream_message, stream_start, tags_url, ChunkEvent,
};

#[test]
fn base_url_prefers_configured_address() {
    assert_eq!(base_url(Some("http://ollama:9000".to_string())), "http://ollama:9000");
    assert_eq!(base_url(None), "http://localhost:11434");
}

#[test]
fn endpoints_are_appended_to_base() {
    assert_eq!(generate_url("http://localhost:11434"), "http://localhost:11434/api/generate");
    assert_eq!(tags_url("http://h:1"), "http://h:1/api/tags");
}

#[test]
fn max_tokens_defaults_to_512() {
    assert_eq!(max_tokens_or_default(None), 512);
    assert_eq!(max_tokens_or_default(Some(50)), 50);
}

#[test]
fn generate_reply_takes_response_member() {
    let body = r#"{"model":"llama3.2","response":"Hello there","done":true}"#;
    assert_eq!(generate_reply(true, "200 OK", body), Ok("Hello there".to_string()));
}

#[test]
fn generate_reply_falls_back_to_body() {
    assert_eq!(generate_reply(true, "200 OK", "plain text"), Ok("plain text".to_string()));
    let no_text = r#"{"response":42}"#;
    assert_eq!(generate_reply(true, "200 OK", no_text), Ok(no_text.to_string()));
    let array = r#"["response"]"#;
    assert_eq!(generate_reply(true, "200 OK", array), Ok(array.to_string()));
}

#[test]
fn generate_reply_reports_failed_status() {
    assert_eq!(
        generate_reply(false, "500 Internal Server Error", "boom"),
        Err("Ollama error 500 Internal Server Error: boom".to_string())
    );
}

#[test]
fn stream_start_reports_failed_status() {
    assert_eq!(stream_start(true, "200 OK", ""), Ok(()));
    assert_eq!(
        stream_start(false, "404 Not Found", "model not found"),
        Err("Ollama stream error 404 Not Found: model not found".to_string())
    );
}

#[test]
fn stream_message_forwards_response_text() {
    assert_eq!(stream_message(r#"{"response":"Hi","done":false}"#), "Hi");
}

#[test]
fn stream_message_rewrites_final_line_compactly() {
    // serde_json orders object members by key and writes no spaces.
    let line = r#"{"model": "x", "done": true, "total_duration": 5}"#;
    assert_eq!(stream_message(line), r#"{"done":true,"model":"x","total_duration":5}"#);
}

#[test]
fn stream_message_keeps_other_lines() {
    assert_eq!(stream_message("not json"), "not json");
    assert_eq!(stream_message(r#"{"done":false}"#), r#"{"done":false}"#);
    assert_eq!(stream_message(r#"{"done":"true"}"#), r#"{"done":"true"}"#);
}

#[test]
fn chunk_messages_split_lines_and_skip_empty_ones() {
    let chunk = b"{\"response\":\"a\"}\n\n{\"response\":\"b\"}\n";
    assert_eq!(chunk_messages(chunk), vec!["a".to_string(), "b".to_string()]);
    assert_eq!(chunk_messages(b""), Vec::<String>::new());
    assert_eq!(chunk_messages(b"\n\n"), Vec::<String>::new());
}

#[test]
fn chunk_messages_decode_lossily() {
    let chunk = b"ab\xffc\nd";
    assert_eq!(chunk_messages(chunk), vec!["ab\u{FFFD}c".to_string(), "d".to_string()]);
}

#[test]
fn model_names_lists_named_entries() {
    let body = r#"{"models":[{"name":"llama3.2"},{"size":1},{"name":7},{"name":"qwen"}]}"#;
    assert_eq!(model_names(true, body), vec!["llama3.2".to_string(), "qwen".to_string()]);
}

#[test]
fn model_names_empty_on_failure_or_bad_body() {
    assert!(model_names(false, r#"{"models":[{"name":"a"}]}"#).is_empty());
    assert!(model_names(true, "oops").is_empty());
    assert!(model_names(true, r#"{"models":{"name":"a"}}"#).is_empty());
    assert!(model_names(true, r#"{}"#).is_empty());
}

#[test]
fn relay_step_forwards_chunks_and_keeps_going() {
    let step = relay_step(ChunkEvent::Chunk(b"{\"response\":\"x\"}\nraw\n".to_vec()));
    assert!(!step.stop);
    assert_eq!(step.deliver, vec![Ok("x".to_string()), Ok("raw".to_string())]);
}

#[test]
fn relay_step_stops_at_end() {
    let step = relay_step(ChunkEvent::Ended);
    assert!(step.stop);
    assert!(step.deliver.is_empty());
}

#[test]
fn relay_step_reports_read_failure_once() {
    let step = relay_step(ChunkEvent::ReadFailed("timeout".to_string()));
    assert!(step.stop);
    assert_eq!(step.deliver, vec![Err("error reading stream chunk: timeout".to_string())]);
}

fn object(members: Vec<(&str, JsonValue)>) -> JsonValue {
    JsonValue::Object(members.into_iter().map(|(k, v)| (k.to_string(), v)).collect())
}

#[test]
fn stream_message_keeps_numbers_exact() {
    let line = r#"{"done":true,"eval_rate":0.1,"big":12345678901234567890,"x":-1.5e-7}"#;
    let expected: serde_json::Value = serde_json::from_str(line).unwrap();
    assert_eq!(stream_message(line), serde_json::to_string(&expected).unwrap());
}

#[test]
fn reply_text_from_parsed_documents() {
    let doc = Some(object(vec![("response", JsonValue::Str("hi".into()))]));
    assert_eq!(reply_text_from(&doc, "body"), "hi");
    let doc = Some(object(vec![("response", JsonValue::Bool(true))]));
    assert_eq!(reply_text_from(&doc, "body"), "body");
    assert_eq!(reply_text_from(&Some(JsonValue::Null), "body"), "body");
    assert_eq!(reply_text_from(&None, "body"), "body");
}

#[test]
fn forwarded_text_from_parsed_documents() {
    let doc = Some(object(vec![("response", JsonValue::Str("tok".into())), ("done", JsonValue::Bool(true))]));
    assert_eq!(forwarded_text(&doc, "line"), "tok");
    let doc = Some(object(vec![("done", JsonValue::Bool(true)), ("n", JsonValue::Number(serde_json::Number::from(3)))]));
    assert_eq!(forwarded_text(&doc, "line"), r#"{"done":true,"n":3}"#);
    let doc = Some(object(vec![("done", JsonValue::Bool(false))]));
    assert_eq!(forwarded_text(&doc, "line"), "line");
    assert_eq!(forwarded_text(&None, "line"), "line");
}

#[test]
fn listing_names_from_parsed_documents() {
    let entries = vec![
        object(vec![("name", JsonValue::Str("a".into()))]),
        JsonValue::Null,
        object(vec![("name", JsonValue::Str("b".into()))]),
    ];
    let doc = Some(object(vec![("models", JsonValue::Array(entries))]));
    assert_eq!(listing_names(&doc), vec!["a".to_string(), "b".to_string()]);
    assert!(listing_names(&None).is_empty());
    let doc = Some(object(vec![("models", JsonValue::Str("a".into()))]));
    assert!(listing_names(&doc).is_empty());
}
