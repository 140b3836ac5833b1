use mergil::errors::ApiError;
use mergil::orchestrator::{
    bearer_header, jittered_delay, request_url, Action, Orchestrator, Phase, TransportEvent,
};

fn success_body(content: &str) -> String {
    format!(
        "{{\"id\":\"i\",\"model\":\"m\",\"object\":\"o\",\"created\":1,\
         \"usage\":{{\"prompt_tokens\":0,\"completion_tokens\":0,\"total_tokens\":0}},\
         \"choices\":[{{\"index\":0,\"message\":{{\"role\":\"assistant\",\"content\":\"{}\"}}}}]}}",
        content
    )
}

fn start_plain(contents: Vec<String>) -> (Orchestrator, Action) {
    Orchestrator::start(
        contents,
        "test-model".to_string(),
        false,
        false,
        false,
        Some("test_key"),
    )
}

#[test]
fn test_retry_twice_then_success() {
    let (mut orch, first) = start_plain(vec!["Hello".to_string()]);
    let mut sends = 1;
    assert!(matches!(first, Action::SendRequest { .. }));

    let a1 = orch.on_event(TransportEvent::Response {
        status: 500,
        body: "server error".to_string(),
    });
    match a1 {
        Action::RetryAfter { delay_ms } => {
            assert_eq!(delay_ms, 100);
            sends += 1;
        }
        other => panic!("expected a retry, got {:?}", other),
    }

    let a2 = orch.on_event(TransportEvent::Response {
        status: 500,
        body: "server error".to_string(),
    });
    match a2 {
        Action::RetryAfter { delay_ms } => {
            assert_eq!(delay_ms, 200);
            sends += 1;
        }
        other => panic!("expected a retry, got {:?}", other),
    }

    let a3 = orch.on_event(TransportEvent::Response {
        status: 200,
        body: success_body("Success after retry!"),
    });
    match a3 {
        Action::Finish { text } => assert_eq!(text, "Success after retry!"),
        other => panic!("expected the final text, got {:?}", other),
    }
    assert_eq!(sends, 3);
    assert_eq!(orch.phase, Phase::Finished);
}

#[test]
fn test_retry_exhaustion_surfaces_last_error() {
    let (mut orch, first) = start_plain(vec!["Hello".to_string()]);
    assert!(matches!(first, Action::SendRequest { .. }));

    let mut attempts = 1;
    let a1 = orch.on_event(TransportEvent::Response {
        status: 400,
        body: "Bad request".to_string(),
    });
    assert!(matches!(a1, Action::RetryAfter { delay_ms: 100 }));
    attempts += 1;
    let a2 = orch.on_event(TransportEvent::Response {
        status: 400,
        body: "Bad request".to_string(),
    });
    assert!(matches!(a2, Action::RetryAfter { delay_ms: 200 }));
    attempts += 1;
    let a3 = orch.on_event(TransportEvent::Response {
        status: 400,
        body: "Bad request".to_string(),
    });
    match a3 {
        Action::Fail { error } => {
            assert_eq!(error, ApiError::ApiErrorResponse("Bad request".to_string()));
            assert_eq!(error.message(), "API error: Bad request");
        }
        other => panic!("expected a failure, got {:?}", other),
    }
    assert_eq!(attempts, 3);
    assert_eq!(orch.phase, Phase::Failed);
}

#[test]
fn test_missing_api_key_fails_before_any_send() {
    let (orch, action) = Orchestrator::start(
        vec!["Hello".to_string()],
        "test-model".to_string(),
        false,
        false,
        false,
        None,
    );
    match action {
        Action::Fail { error } => {
            assert_eq!(error, ApiError::MissingApiKey);
            assert_eq!(error.message(), "OPENROUTER_API_KEY not set");
        }
        other => panic!("expected an immediate failure, got {:?}", other),
    }
    assert_eq!(orch.phase, Phase::Failed);
}

#[test]
fn test_transport_failure_is_retried() {
    let (mut orch, _) = start_plain(vec!["Hello".to_string()]);
    let a1 = orch.on_event(TransportEvent::TransportFailed {
        message: "connection refused".to_string(),
    });
    assert!(matches!(a1, Action::RetryAfter { delay_ms: 100 }));
    let a2 = orch.on_event(TransportEvent::TransportFailed {
        message: "connection refused".to_string(),
    });
    assert!(matches!(a2, Action::RetryAfter { delay_ms: 200 }));
    let a3 = orch.on_event(TransportEvent::TransportFailed {
        message: "connection refused".to_string(),
    });
    match a3 {
        Action::Fail { error } => assert_eq!(
            error,
            ApiError::RequestFailed("connection refused".to_string())
        ),
        other => panic!("expected a failure, got {:?}", other),
    }
}

#[test]
fn test_parse_failure_is_retried() {
    let (mut orch, _) = start_plain(vec!["Hello".to_string()]);
    let a1 = orch.on_event(TransportEvent::Response {
        status: 200,
        body: "not json".to_string(),
    });
    assert!(matches!(a1, Action::RetryAfter { delay_ms: 100 }));
}

#[test]
fn test_preprocess_success_replaces_last_entry() {
    let (mut orch, first) = Orchestrator::start(
        vec!["draft question".to_string()],
        "test-model".to_string(),
        false,
        true,
        false,
        Some("test_key"),
    );
    assert_eq!(orch.phase, Phase::Preprocess);
    let opening_body = match first {
        Action::SendRequest { body } => body,
        other => panic!("expected the opening send, got {:?}", other),
    };
    assert!(opening_body.contains("Reformulate the user's submission"));
    assert!(opening_body.contains("draft question"));

    let next = orch.on_event(TransportEvent::Response {
        status: 200,
        body: success_body("a clearer question"),
    });
    assert_eq!(orch.phase, Phase::Main);
    assert_eq!(orch.contents, vec!["a clearer question".to_string()]);
    let main_body = match next {
        Action::SendRequest { body } => body,
        other => panic!("expected the main send, got {:?}", other),
    };
    assert!(main_body.contains("a clearer question"));
    assert!(!main_body.contains("Reformulate the user's submission"));
    assert!(main_body.contains("helpful coding tool"));
}

#[test]
fn test_preprocess_failure_stops_the_call() {
    let (mut orch, _) = Orchestrator::start(
        vec!["draft".to_string()],
        "test-model".to_string(),
        false,
        true,
        false,
        Some("test_key"),
    );
    orch.on_event(TransportEvent::Response {
        status: 400,
        body: "Bad request".to_string(),
    });
    orch.on_event(TransportEvent::Response {
        status: 400,
        body: "Bad request".to_string(),
    });
    let last = orch.on_event(TransportEvent::Response {
        status: 400,
        body: "Bad request".to_string(),
    });
    assert!(matches!(last, Action::Fail { .. }));
    // The call is over; the main request was never reached.
    assert_eq!(orch.phase, Phase::Failed);
}

#[test]
fn test_streaming_handshake_hands_over() {
    let (mut orch, _) = Orchestrator::start(
        vec!["Hello".to_string()],
        "test-model".to_string(),
        false,
        false,
        true,
        Some("test_key"),
    );
    let action = orch.on_event(TransportEvent::Connected);
    assert!(matches!(action, Action::StreamReady));
    assert_eq!(orch.phase, Phase::Streaming);
}

#[test]
fn test_request_body_carries_stream_flag() {
    let (_, action) = Orchestrator::start(
        vec!["Hello".to_string()],
        "test-model".to_string(),
        false,
        false,
        true,
        Some("test_key"),
    );
    let body = match action {
        Action::SendRequest { body } => body,
        other => panic!("expected the opening send, got {:?}", other),
    };
    let parsed: serde_json::Value = serde_json::from_str(&body).unwrap();
    assert_eq!(parsed["model"].as_str().unwrap(), "test-model");
    assert_eq!(parsed["stream"].as_bool().unwrap(), true);
    let messages = parsed["messages"].as_array().unwrap();
    assert_eq!(messages.len(), 3);
    assert_eq!(messages[2]["content"].as_str().unwrap(), "Hello");
}

#[test]
fn test_request_url_and_bearer_header() {
    assert_eq!(
        request_url(None),
        "https://openrouter.ai/api/v1/chat/completions"
    );
    assert_eq!(request_url(Some("http://localhost:9/x")), "http://localhost:9/x");
    assert_eq!(bearer_header("test_key"), "Bearer test_key");
}

#[test]
fn test_jittered_delay_stays_below_double() {
    assert_eq!(jittered_delay(100, 0), 100);
    assert_eq!(jittered_delay(100, 250), 150);
    assert_eq!(jittered_delay(200, 199), 399);
}
