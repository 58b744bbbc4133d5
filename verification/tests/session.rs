use ollama_turbo::handlers::{
    generate_http_reply, models_http_reply, resolve_model, step, Incoming, ReplyBody,
    SessionAction, SessionEvent, SessionState,
};

#[test]
fn resolve_model_order() {
    assert_eq!(resolve_model(Some("qwen".into()), Some("phi".into())), "qwen");
    assert_eq!(resolve_model(None, Some("phi".into())), "phi");
    assert_eq!(resolve_model(None, None), "llama3.2");
}

#[test]
fn generate_reply_statuses() {
    let ok = generate_http_reply(Ok("hi".to_string()));
    assert_eq!(ok.status, 200);
    match ok.body {
        ReplyBody::Generated(g) => assert_eq!(g.text, "hi"),
        _ => panic!("expected generated body"),
    }
    let err = generate_http_reply(Err("Ollama error 500: x".to_string()));
    assert_eq!(err.status, 500);
    match err.body {
        ReplyBody::Failure(m) => assert_eq!(m, "Ollama error 500: x"),
        _ => panic!("expected failure body"),
    }
}

#[test]
fn models_reply_statuses() {
    let ok = models_http_reply(Ok(vec!["a".to_string()]));
    assert_eq!(ok.status, 200);
    match ok.body {
        ReplyBody::Models(m) => assert_eq!(m.models, vec!["a".to_string()]),
        _ => panic!("expected models body"),
    }
    assert_eq!(models_http_reply(Err("down".to_string())).status, 500);
}

fn action_text(a: &SessionAction) -> Option<&str> {
    match a {
        SessionAction::ParseRequest(t)
        | SessionAction::OpenStream(t)
        | SessionAction::Forward(t)
        | SessionAction::SendFinal(t) => Some(t.as_str()),
        _ => None,
    }
}

#[test]
fn session_streams_chunks_until_the_end() {
    let t = step(SessionState::AwaitingInit, SessionEvent::FirstMessage(Some(Incoming::Text("{\"prompt\":\"x\"}".into()))));
    assert_eq!(t.next, SessionState::ParsingRequest);
    assert!(matches!(t.action, SessionAction::ParseRequest(_)));
    let t = step(t.next, SessionEvent::RequestParsed { requested_model: None, configured_model: None });
    assert_eq!(t.next, SessionState::OpeningStream);
    assert_eq!(action_text(&t.action), Some("llama3.2"));
    let t = step(t.next, SessionEvent::StreamOpened);
    assert_eq!(t.next, SessionState::Streaming);
    assert!(matches!(t.action, SessionAction::NextItem));
    let t = step(t.next, SessionEvent::StreamItem(Some(Ok("Hel".into()))));
    assert_eq!(t.next, SessionState::Forwarding);
    assert!(matches!(&t.action, SessionAction::Forward(c) if c == "Hel"));
    let t = step(t.next, SessionEvent::SendDone(true));
    assert_eq!(t.next, SessionState::Streaming);
    let t = step(t.next, SessionEvent::StreamItem(None));
    assert_eq!(t.next, SessionState::Closed);
    assert!(matches!(t.action, SessionAction::Close));
}

#[test]
fn session_error_frames() {
    let t = step(SessionState::ParsingRequest, SessionEvent::RequestInvalid("EOF".into()));
    assert_eq!(t.next, SessionState::Closed);
    assert!(matches!(&t.action, SessionAction::SendFinal(m) if m == "__ERROR__: invalid init json: EOF"));
    let t = step(SessionState::OpeningStream, SessionEvent::StreamFailed("refused".into()));
    assert!(matches!(&t.action, SessionAction::SendFinal(m) if m == "__ERROR__: failed to start ollama stream: refused"));
    let t = step(SessionState::Streaming, SessionEvent::StreamItem(Some(Err("bad".into()))));
    assert_eq!(t.next, SessionState::Closed);
    assert!(matches!(&t.action, SessionAction::SendFinal(m) if m == "__ERROR__:bad"));
}

#[test]
fn session_closes_on_other_first_messages_and_disconnects() {
    let t = step(SessionState::AwaitingInit, SessionEvent::FirstMessage(Some(Incoming::Other)));
    assert_eq!(t.next, SessionState::Closed);
    let t = step(SessionState::AwaitingInit, SessionEvent::FirstMessage(None));
    assert_eq!(t.next, SessionState::Closed);
    let t = step(SessionState::Forwarding, SessionEvent::SendDone(false));
    assert_eq!(t.next, SessionState::Closed);
    assert!(matches!(t.action, SessionAction::Close));
    let t = step(SessionState::Closed, SessionEvent::StreamOpened);
    assert_eq!(t.next, SessionState::Closed);
    assert!(matches!(t.action, SessionAction::Close));
}
