use glm_vision_rs::client::handle_response;
use glm_vision_rs::response::parse_completion;
use glm_vision_rs::{HttpResponse, VisionError};

#[test]
fn test_parse_first_choice_content() {
    let body = r#"{"choices":[{"message":{"content":"hello"}}]}"#;
    assert_eq!(parse_completion(body), Ok("hello".to_string()));
}

#[test]
fn test_parse_empty_choices_is_missing_content() {
    let body = r#"{"choices":[]}"#;
    assert_eq!(parse_completion(body), Err(VisionError::MissingContent));
}

#[test]
fn test_parse_null_content_is_missing_content() {
    let body = r#"{"choices":[{"message":{"content":null}}]}"#;
    assert_eq!(parse_completion(body), Err(VisionError::MissingContent));
}

#[test]
fn test_parse_absent_content_is_missing_content() {
    let body = r#"{"choices":[{"message":{}}]}"#;
    assert_eq!(parse_completion(body), Err(VisionError::MissingContent));
}

#[test]
fn test_parse_malformed_json() {
    assert_eq!(
        parse_completion("not json at all"),
        Err(VisionError::ParseError)
    );
    assert_eq!(parse_completion(""), Err(VisionError::ParseError));
    assert_eq!(
        parse_completion(r#"{"choices":"#),
        Err(VisionError::ParseError)
    );
}

#[test]
fn test_parse_wrong_shape() {
    // No "choices" field, or the wrong type behind it.
    assert_eq!(parse_completion(r#"{}"#), Err(VisionError::ParseError));
    assert_eq!(
        parse_completion(r#"{"choices":42}"#),
        Err(VisionError::ParseError)
    );
    assert_eq!(
        parse_completion(r#"{"choices":[{"no_message":1}]}"#),
        Err(VisionError::ParseError)
    );
    assert_eq!(
        parse_completion(r#"{"choices":[{"message":{"content":7}}]}"#),
        Err(VisionError::ParseError)
    );
    assert_eq!(parse_completion(r#"[1,2,3]"#), Err(VisionError::ParseError));
}

#[test]
fn test_parse_never_falls_back_to_later_choice() {
    let body = r#"{"choices":[{"message":{"content":null}},{"message":{"content":"second"}}]}"#;
    assert_eq!(parse_completion(body), Err(VisionError::MissingContent));
}

#[test]
fn test_parse_tolerates_extra_fields() {
    let body = r#"{"id":"x","usage":{"total_tokens":5},"choices":[{"index":0,"message":{"role":"assistant","content":"ok"}}]}"#;
    assert_eq!(parse_completion(body), Ok("ok".to_string()));
}

#[test]
fn test_handle_response_success() {
    let resp = HttpResponse {
        status: 200,
        body: r#"{"choices":[{"message":{"content":"hi"}}]}"#.to_string(),
    };
    assert_eq!(handle_response(&resp), Ok("hi".to_string()));
}

#[test]
fn test_handle_response_api_error() {
    let resp = HttpResponse {
        status: 503,
        body: "overloaded".to_string(),
    };
    match handle_response(&resp) {
        Err(VisionError::ApiError { status, body }) => {
            assert_eq!(status, 503);
            assert_eq!(body, "overloaded");
        }
        other => panic!("expected ApiError, got {:?}", other),
    }
}

#[test]
fn test_http_response_is_success() {
    assert!(!HttpResponse {
        status: 199,
        body: String::new()
    }
    .is_success());
    assert!(HttpResponse {
        status: 200,
        body: String::new()
    }
    .is_success());
    assert!(HttpResponse {
        status: 299,
        body: String::new()
    }
    .is_success());
    assert!(!HttpResponse {
        status: 300,
        body: String::new()
    }
    .is_success());
}
