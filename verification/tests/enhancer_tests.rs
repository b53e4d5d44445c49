use prompt_enhancer::enhancer::{
    BodyEvent, EnhancePromptRequest, HttpPromptEnhancerClient, PromptEnhancementErrorCode,
    PromptEnhancerConfig, PromptEnhancerFormat, SendEvent, WorkspaceContext,
};
use prompt_enhancer::enhancer::PromptEnhancementErrorCode::{
    DraftTooLarge, Internal, ServiceUnavailable, Timeout, UnsupportedFormat,
};

fn test_config(endpoint: Option<String>) -> PromptEnhancerConfig {
    PromptEnhancerConfig {
        endpoint,
        formats: vec![PromptEnhancerFormat::Text],
        locale: None,
        timeout_ms: 1000,
        max_request_bytes: None,
        supports_async_cancel: true,
        max_recent_messages: 4,
    }
}

fn test_request() -> EnhancePromptRequest {
    EnhancePromptRequest {
        request_id: "req".to_string(),
        format: PromptEnhancerFormat::Text,
        locale: None,
        draft: "draft".to_string(),
        cursor_byte_offset: Some(0),
        workspace_context: WorkspaceContext {
            model: "model".to_string(),
            reasoning_effort: None,
            cwd: ".".to_string(),
            recent_messages: Vec::new(),
        },
    }
}

/// A 200 response whose body carries `enhanced_prompt` succeeds with it.
#[test]
fn enhance_success() {
    let config = test_config(Some("http://127.0.0.1:0/enhance".to_string()));
    let client = HttpPromptEnhancerClient::new(config);
    let _request = test_request();

    let endpoint = client.start_enhance(false);
    let endpoint = endpoint.expect("endpoint configured");
    assert_eq!(endpoint, "http://127.0.0.1:0/enhance");

    let status = HttpPromptEnhancerClient::after_send(SendEvent::Response { status: 200 }, false)
        .expect("response arrived");
    let body = "{\"enhanced_prompt\": \"better prompt\"}".to_string();
    let result = HttpPromptEnhancerClient::after_body(status, BodyEvent::Body { text: body }, false);
    assert_eq!(result.expect("success"), "better prompt");
}

/// A 400 response with a structured `draft_too_large` error maps onto the
/// taxonomy, message kept.
#[test]
fn enhance_maps_error_code() {
    let body = "{\"error\": {\"code\": \"draft_too_large\", \"message\": \"too big\"}}";
    let err = HttpPromptEnhancerClient::classify_response(400, body).expect_err("should fail");
    assert_eq!(err.code, PromptEnhancementErrorCode::DraftTooLarge);
    assert_eq!(err.message, "too big");
}

/// A bare 504 maps onto `Timeout`.
#[test]
fn enhance_handles_timeout_status() {
    let err = HttpPromptEnhancerClient::classify_response(504, "").expect_err("timeout");
    assert_eq!(err.code, PromptEnhancementErrorCode::Timeout);
}

/// Cancellation that wins the send race yields the one cancellation error,
/// and a handle cancelled in the gap after the response does too.
#[test]
fn enhance_respects_cancellation() {
    let err = HttpPromptEnhancerClient::after_send(SendEvent::Cancelled, false)
        .expect_err("cancelled");
    assert_eq!(err.code, PromptEnhancementErrorCode::Internal);
    assert_eq!(err.message, "cancelled");

    let err = HttpPromptEnhancerClient::after_send(SendEvent::Response { status: 200 }, true)
        .expect_err("cancelled in the gap");
    assert_eq!(err.code, PromptEnhancementErrorCode::Internal);
    assert_eq!(err.message, "cancelled");
}

/// A config without an endpoint is terminal before any I/O.
#[test]
fn missing_endpoint_returns_error() {
    let client = HttpPromptEnhancerClient::new(test_config(None));
    let err = client.start_enhance(false).expect_err("missing endpoint");
    assert_eq!(err.code, PromptEnhancementErrorCode::ServiceUnavailable);
    assert_eq!(err.message, "Prompt enhancer endpoint is not configured.");
}

/// A handle already cancelled before the call wins outright, endpoint or not.
#[test]
fn cancelled_before_start_wins() {
    let client = HttpPromptEnhancerClient::new(test_config(Some("http://x/enhance".to_string())));
    let err = client.start_enhance(true).expect_err("cancelled");
    assert_eq!(err.code, PromptEnhancementErrorCode::Internal);
    assert_eq!(err.message, "cancelled");
}

/// Cancellation observed at the body checkpoint still wins; once the body
/// is classified, a later signal has nothing left to overwrite.
#[test]
fn cancellation_order_at_body_checkpoint() {
    let body = "{\"enhanced_prompt\": \"kept\"}".to_string();
    let err = HttpPromptEnhancerClient::after_body(
        200,
        BodyEvent::Body { text: body.clone() },
        true,
    )
    .expect_err("cancelled before classification");
    assert_eq!(err.message, "cancelled");

    let result = HttpPromptEnhancerClient::after_body(200, BodyEvent::Body { text: body }, false);
    assert_eq!(result.expect("classified"), "kept");
}

#[test]
fn transport_failures_classify_by_kind() {
    let timeout = HttpPromptEnhancerClient::after_send(
        SendEvent::TransportFailed {
            timed_out: true,
            connect_failed: false,
            message: "deadline".to_string(),
        },
        false,
    )
    .expect_err("timeout");
    assert_eq!(timeout.code, PromptEnhancementErrorCode::Timeout);
    assert_eq!(timeout.message, "deadline");

    let connect = HttpPromptEnhancerClient::after_send(
        SendEvent::TransportFailed {
            timed_out: false,
            connect_failed: true,
            message: "refused".to_string(),
        },
        false,
    )
    .expect_err("unreachable");
    assert_eq!(connect.code, PromptEnhancementErrorCode::ServiceUnavailable);

    let other = HttpPromptEnhancerClient::after_send(
        SendEvent::TransportFailed {
            timed_out: false,
            connect_failed: false,
            message: "broken pipe".to_string(),
        },
        false,
    )
    .expect_err("other");
    assert_eq!(other.code, PromptEnhancementErrorCode::Internal);
}

#[test]
fn read_failures_classify_by_kind() {
    let timeout = HttpPromptEnhancerClient::after_body(
        200,
        BodyEvent::ReadFailed { timed_out: true, message: "read deadline".to_string() },
        false,
    )
    .expect_err("timeout");
    assert_eq!(timeout.code, PromptEnhancementErrorCode::Timeout);

    let other = HttpPromptEnhancerClient::after_body(
        200,
        BodyEvent::ReadFailed { timed_out: false, message: "reset".to_string() },
        false,
    )
    .expect_err("other");
    assert_eq!(other.code, PromptEnhancementErrorCode::Internal);
    assert_eq!(other.message, "reset");
}

#[test]
fn status_mapping_table() {
    assert_eq!(HttpPromptEnhancerClient::map_status(408), Timeout);
    assert_eq!(HttpPromptEnhancerClient::map_status(504), Timeout);
    assert_eq!(HttpPromptEnhancerClient::map_status(429), Timeout);
    assert_eq!(HttpPromptEnhancerClient::map_status(413), DraftTooLarge);
    assert_eq!(HttpPromptEnhancerClient::map_status(415), UnsupportedFormat);
    assert_eq!(HttpPromptEnhancerClient::map_status(400), ServiceUnavailable);
    assert_eq!(HttpPromptEnhancerClient::map_status(599), ServiceUnavailable);
    assert_eq!(HttpPromptEnhancerClient::map_status(302), Internal);
    assert_eq!(HttpPromptEnhancerClient::map_status(200), Internal);
}

#[test]
fn error_code_mapping_is_case_insensitive_and_closed() {
    assert_eq!(HttpPromptEnhancerClient::map_error_code("unsupported_format"), UnsupportedFormat);
    assert_eq!(HttpPromptEnhancerClient::map_error_code("UNSUPPORTED_FORMAT"), UnsupportedFormat);
    assert_eq!(HttpPromptEnhancerClient::map_error_code("draft_too_large"), DraftTooLarge);
    assert_eq!(HttpPromptEnhancerClient::map_error_code("Payload_Too_Large"), DraftTooLarge);
    assert_eq!(HttpPromptEnhancerClient::map_error_code("timeout"), Timeout);
    assert_eq!(HttpPromptEnhancerClient::map_error_code("service_unavailable"), ServiceUnavailable);
    assert_eq!(HttpPromptEnhancerClient::map_error_code("OVERLOADED"), ServiceUnavailable);
    assert_eq!(HttpPromptEnhancerClient::map_error_code("weird"), Internal);
    assert_eq!(HttpPromptEnhancerClient::map_error_code(""), Internal);
}

/// Success-body precedence: `enhanced_prompt` wins over a structured error.
#[test]
fn success_body_precedence() {
    let body = "{\"enhanced_prompt\": \"p\", \"error\": {\"code\": \"timeout\"}}";
    let result = HttpPromptEnhancerClient::classify_response(200, body);
    assert_eq!(result.expect("prompt wins"), "p");
}

#[test]
fn success_status_with_error_and_no_message_gets_fallback_message() {
    let body = "{\"error\": {\"code\": \"timeout\"}}";
    let err = HttpPromptEnhancerClient::classify_response(200, body).expect_err("error body");
    assert_eq!(err.code, PromptEnhancementErrorCode::Timeout);
    assert_eq!(err.message, "Prompt enhancer returned an error without message");
}

#[test]
fn empty_success_body_is_internal() {
    let err = HttpPromptEnhancerClient::classify_response(200, "{}").expect_err("empty");
    assert_eq!(err.code, PromptEnhancementErrorCode::Internal);
    assert_eq!(err.message, "Prompt enhancer returned an empty response.");
}

#[test]
fn unparseable_success_body_is_internal() {
    let err = HttpPromptEnhancerClient::classify_response(200, "not json").expect_err("bad json");
    assert_eq!(err.code, PromptEnhancementErrorCode::Internal);
    assert_eq!(err.message, "Failed to parse enhancer response.");
}

#[test]
fn mistyped_success_field_is_internal() {
    let err =
        HttpPromptEnhancerClient::classify_response(200, "{\"enhanced_prompt\": 5}").expect_err(
            "mistyped",
        );
    assert_eq!(err.code, PromptEnhancementErrorCode::Internal);
    assert_eq!(err.message, "Failed to parse enhancer response.");
}

/// Non-2xx with an unparseable body falls back to the status mapping with
/// the raw status and body embedded in the message.
#[test]
fn unparseable_error_body_falls_back_to_status() {
    let err = HttpPromptEnhancerClient::classify_response(500, "oops").expect_err("bad body");
    assert_eq!(err.code, PromptEnhancementErrorCode::ServiceUnavailable);
    assert_eq!(err.message, "Prompt enhancer HTTP 500: oops");
}

#[test]
fn error_body_without_message_embeds_status_and_body() {
    let body = "{\"error\": {\"code\": \"overloaded\"}}";
    let err = HttpPromptEnhancerClient::classify_response(503, body).expect_err("overloaded");
    assert_eq!(err.code, PromptEnhancementErrorCode::ServiceUnavailable);
    assert_eq!(err.message, format!("Prompt enhancer error (503): {body}"));
}

#[test]
fn error_body_without_code_uses_status_mapping() {
    let body = "{\"error\": {\"message\": \"m\"}}";
    let err = HttpPromptEnhancerClient::classify_response(504, body).expect_err("no code");
    assert_eq!(err.code, PromptEnhancementErrorCode::Timeout);
    assert_eq!(err.message, "m");
}

#[test]
fn parsed_error_body_without_error_object_falls_back() {
    let err = HttpPromptEnhancerClient::classify_response(418, "{\"a\": 1}").expect_err("fallback");
    assert_eq!(err.code, PromptEnhancementErrorCode::ServiceUnavailable);
    assert_eq!(err.message, "Prompt enhancer HTTP 418: {\"a\": 1}");
}

#[test]
fn unrecognized_structured_code_is_internal_even_on_error_status() {
    let body = "{\"error\": {\"code\": \"mystery\", \"message\": \"m\"}}";
    let err = HttpPromptEnhancerClient::classify_response(504, body).expect_err("mystery");
    assert_eq!(err.code, PromptEnhancementErrorCode::Internal);
}

/// A 2xx response can still carry a structured error; the string code maps
/// and the message is kept.
#[test]
fn success_status_with_structured_error_maps_code() {
    let body = "{\"error\": {\"code\": \"draft_too_large\", \"message\": \"too big\"}}";
    let err = HttpPromptEnhancerClient::classify_response(200, body).expect_err("error body");
    assert_eq!(err.code, DraftTooLarge);
    assert_eq!(err.message, "too big");
}

/// The helpers that build the two halves of every error value.
#[test]
fn error_constructors() {
    let c = HttpPromptEnhancerClient::cancelled_error();
    assert_eq!(c.code, Internal);
    assert_eq!(c.message, "cancelled");
    let e = HttpPromptEnhancerClient::request_error("m".to_string(), Timeout);
    assert_eq!(e.code, Timeout);
    assert_eq!(e.message, "m");
}
