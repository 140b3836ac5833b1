use mergil::decode::{decode_response, extract_content};
use mergil::encode::{encode_request, CompletionRequest};
use mergil::errors::ApiError;
use mergil::messages::{build_messages, Message};

fn full_response_body(content: &str) -> String {
    let mut body = String::new();
    body.push_str("{\"id\":\"test-id\",\"model\":\"test-model\",");
    body.push_str("\"object\":\"object-test\",\"created\":10010,");
    body.push_str("\"system_fingerprint\":\"none\",");
    body.push_str("\"usage\":{\"prompt_tokens\":50,\"completion_tokens\":60,\"total_tokens\":110},");
    body.push_str("\"choices\":[{\"finish_reason\":\"stop\",\"index\":1,");
    body.push_str("\"message\":{\"role\":\"assistant\",\"content\":\"");
    body.push_str(content);
    body.push_str("\"}}]}");
    body
}

#[test]
fn test_api_error_display() {
    let parse_error = ApiError::ResponseParseFailed(
        serde_json::from_str::<serde_json::Value>("invalid json")
            .unwrap_err()
            .to_string(),
    );
    assert!(parse_error.message().contains("Failed to parse response"));

    let api_error = ApiError::ApiErrorResponse("Bad request".to_string());
    assert_eq!(api_error.message(), "API error: Bad request");

    let retry_error = ApiError::RetryExhausted;
    assert_eq!(retry_error.message(), "Retry attempts exhausted");
}

#[test]
fn test_decode_full_response() {
    let body = full_response_body("Hello, world!");
    let resp = decode_response(&body).unwrap();

    assert_eq!(resp.id, "test-id");
    assert_eq!(resp.model, "test-model");
    assert_eq!(resp.object, "object-test");
    assert_eq!(resp.created, 10010);
    assert_eq!(resp.system_fingerprint, Some("none".to_string()));
    assert_eq!(resp.usage.prompt_tokens, 50);
    assert_eq!(resp.usage.completion_tokens, 60);
    assert_eq!(resp.usage.total_tokens, 110);
    assert_eq!(resp.choices.len(), 1);
    assert_eq!(resp.choices[0].index, 1);
    assert_eq!(resp.choices[0].finish_reason, Some("stop".to_string()));
    assert_eq!(resp.choices[0].message.role, "assistant");
    assert_eq!(resp.choices[0].message.content, "Hello, world!");

    assert_eq!(extract_content(&resp), "Hello, world!");
}

#[test]
fn test_decode_invalid_json_fails() {
    let result = decode_response("not json at all");
    assert!(matches!(result, Err(ApiError::ResponseParseFailed(_))));
}

#[test]
fn test_decode_schema_mismatch_fails() {
    // Well-formed JSON, but the required fields of a response are absent.
    let result = decode_response("{\"choices\":[]}");
    assert!(matches!(result, Err(ApiError::ResponseParseFailed(_))));
}

#[test]
fn test_decode_empty_choices_yields_empty_text() {
    let body = "{\"id\":\"i\",\"model\":\"m\",\"object\":\"o\",\"created\":1,\
                \"usage\":{\"prompt_tokens\":0,\"completion_tokens\":0,\"total_tokens\":0},\
                \"choices\":[]}";
    let resp = decode_response(body).unwrap();
    assert_eq!(resp.choices.len(), 0);
    assert_eq!(extract_content(&resp), "");
}

#[test]
fn test_decode_missing_fingerprint_is_none() {
    let body = "{\"id\":\"i\",\"model\":\"m\",\"object\":\"o\",\"created\":1,\
                \"usage\":{\"prompt_tokens\":0,\"completion_tokens\":0,\"total_tokens\":0},\
                \"choices\":[]}";
    let resp = decode_response(body).unwrap();
    assert_eq!(resp.system_fingerprint, None);
}

#[test]
fn test_request_round_trip_recovers_content() {
    // A request is encoded, the server echoes the content back inside a
    // response, and decoding recovers exactly the text that was placed there.
    let messages = build_messages(&["What is a closure?".to_string()], false, false);
    let req = CompletionRequest {
        model: "test-model".to_string(),
        messages,
        stream: false,
    };
    let sent = encode_request(&req);
    let parsed: serde_json::Value = serde_json::from_str(&sent).unwrap();
    let echoed = parsed["messages"][2]["content"].as_str().unwrap();
    assert_eq!(echoed, "What is a closure?");

    let body = full_response_body(echoed);
    let resp = decode_response(&body).unwrap();
    assert_eq!(extract_content(&resp), "What is a closure?");
}

#[test]
fn test_encode_request_exact_text() {
    let req = CompletionRequest {
        model: "m".to_string(),
        messages: vec![
            Message {
                role: "system".to_string(),
                content: "a".to_string(),
            },
            Message {
                role: "user".to_string(),
                content: "b".to_string(),
            },
        ],
        stream: true,
    };
    assert_eq!(
        encode_request(&req),
        "{\"model\":\"m\",\"messages\":[{\"role\":\"system\",\"content\":\"a\"},\
         {\"role\":\"user\",\"content\":\"b\"}],\"stream\":true}"
    );
}

#[test]
fn test_encode_request_escapes_content() {
    let req = CompletionRequest {
        model: "m".to_string(),
        messages: vec![Message {
            role: "user".to_string(),
            content: "say \"hi\\bye\"\nplease\ttabbed\u{1}".to_string(),
        }],
        stream: false,
    };
    let body = encode_request(&req);
    assert_eq!(
        body,
        "{\"model\":\"m\",\"messages\":[{\"role\":\"user\",\"content\":\
         \"say \\\"hi\\\\bye\\\"\\nplease\\ttabbed\\u0001\"}],\"stream\":false}"
    );
    // The escaped body must still be JSON the other side can read back.
    let parsed: serde_json::Value = serde_json::from_str(&body).unwrap();
    assert_eq!(
        parsed["messages"][0]["content"].as_str().unwrap(),
        "say \"hi\\bye\"\nplease\ttabbed\u{1}"
    );
}
