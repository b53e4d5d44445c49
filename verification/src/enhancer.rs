//! The enhancement-call core: the closed error taxonomy, the classification
//! of every call outcome, and the checkpoint protocol that races one HTTP
//! call against an external cancellation signal.
//!
//! The asynchronous transport itself lives outside the library. A caller
//! drives one call through three checkpoints, feeding each the event that
//! its race produced:
//!
//! 1. [`HttpPromptEnhancerClient::start_enhance`] — before any I/O; yields
//!    the endpoint to post to, or a terminal error.
//! 2. [`HttpPromptEnhancerClient::after_send`] — once the send/cancel race
//!    settles; yields the status to read a body for, or a terminal error.
//! 3. [`HttpPromptEnhancerClient::after_body`] — once the read/cancel race
//!    settles; classifies the response into the one final outcome.

use vstd::prelude::*;
use vstd::string::StringExecFns;
use crate::json::{
    spec_interpret_response, JsonValue, json_parse, parse_json, parse_http_response,
    PromptEnhancerHttpError, PromptEnhancerHttpResponse, SpecHttpResponse,
};
use crate::text::{
    decimal_u16, eq_ignore_ascii_case, spec_decimal, spec_eq_ignore_ascii_case,
};

verus! {

/// The closed error taxonomy every failure is normalized into.
#[derive(Clone, Copy, Debug, PartialEq, Eq, Structural)]
pub enum PromptEnhancementErrorCode {
    UnsupportedFormat,
    DraftTooLarge,
    Timeout,
    ServiceUnavailable,
    Internal,
}

/// The single error value a caller ever sees: a taxonomy code and a message.
#[derive(Clone, Debug)]
pub struct PromptEnhancementError {
    pub code: PromptEnhancementErrorCode,
    pub message: String,
}

/// Draft formats the service can be asked to enhance.
#[derive(Clone, Copy, Debug, PartialEq, Eq, Structural)]
pub enum PromptEnhancerFormat {
    Text,
    Markdown,
}

/// Workspace details that ride along with a request.
#[derive(Clone, Debug)]
pub struct WorkspaceContext {
    pub model: String,
    pub reasoning_effort: Option<String>,
    pub cwd: String,
    pub recent_messages: Vec<String>,
}

/// One immutable enhancement request; the client only hands it to the
/// transport for serialization.
#[derive(Clone, Debug)]
pub struct EnhancePromptRequest {
    pub request_id: String,
    pub format: PromptEnhancerFormat,
    pub locale: Option<String>,
    pub draft: String,
    pub cursor_byte_offset: Option<u64>,
    pub workspace_context: WorkspaceContext,
}

/// Client configuration. An absent endpoint is a valid, terminal state
/// meaning the feature is disabled.
#[derive(Clone, Debug)]
pub struct PromptEnhancerConfig {
    pub endpoint: Option<String>,
    pub formats: Vec<PromptEnhancerFormat>,
    pub locale: Option<String>,
    pub timeout_ms: u64,
    pub max_request_bytes: Option<u64>,
    pub supports_async_cancel: bool,
    pub max_recent_messages: usize,
}

/// The client: holds its configuration for the lifetime of the calls it
/// classifies.
pub struct HttpPromptEnhancerClient {
    pub config: PromptEnhancerConfig,
}

/// A classification outcome, stated over character sequences.
pub enum SpecOutcome {
    Success(Seq<char>),
    Failure(PromptEnhancementErrorCode, Seq<char>),
}

/// How an executable result realizes a classification outcome.
pub open spec fn outcome_matches(
    r: Result<String, PromptEnhancementError>,
    o: SpecOutcome,
) -> bool {
    match r {
        Ok(s) => o == SpecOutcome::Success(s@),
        Err(e) => o == SpecOutcome::Failure(e.code, e.message@),
    }
}

/// The status-derived code, used when no more specific service-reported
/// code is available.
pub open spec fn spec_map_status(status: u16) -> PromptEnhancementErrorCode {
    if status == 408 || status == 504 || status == 429 {
        PromptEnhancementErrorCode::Timeout
    } else if status == 413 {
        PromptEnhancementErrorCode::DraftTooLarge
    } else if status == 415 {
        PromptEnhancementErrorCode::UnsupportedFormat
    } else if 400 <= status && status < 600 {
        PromptEnhancementErrorCode::ServiceUnavailable
    } else {
        PromptEnhancementErrorCode::Internal
    }
}

/// The code a service-reported string code maps to, case-insensitively;
/// anything unrecognized maps to `Internal`.
pub open spec fn spec_map_error_code(code: Seq<char>) -> PromptEnhancementErrorCode {
    if spec_eq_ignore_ascii_case(code, "unsupported_format"@) {
        PromptEnhancementErrorCode::UnsupportedFormat
    } else if spec_eq_ignore_ascii_case(code, "draft_too_large"@) || spec_eq_ignore_ascii_case(
        code,
        "payload_too_large"@,
    ) {
        PromptEnhancementErrorCode::DraftTooLarge
    } else if spec_eq_ignore_ascii_case(code, "timeout"@) {
        PromptEnhancementErrorCode::Timeout
    } else if spec_eq_ignore_ascii_case(code, "service_unavailable"@) || spec_eq_ignore_ascii_case(
        code,
        "overloaded"@,
    ) {
        PromptEnhancementErrorCode::ServiceUnavailable
    } else {
        PromptEnhancementErrorCode::Internal
    }
}

/// A parsed body, or `None` when the text is not JSON at all.
pub open spec fn spec_body_response(parsed: Option<JsonValue>) -> Option<SpecHttpResponse> {
    match parsed {
        None => None,
        Some(v) => spec_interpret_response(v),
    }
}

/// The fallback failure when a non-2xx body yields no structured error:
/// the status mapping, with the raw status and body embedded.
pub open spec fn spec_status_fallback(status: u16, body: Seq<char>) -> SpecOutcome {
    SpecOutcome::Failure(
        spec_map_status(status),
        "Prompt enhancer HTTP "@ + spec_decimal(status as int) + ": "@ + body,
    )
}

/// Classification of a `(status, body)` pair into the one final outcome.
pub open spec fn spec_classify(status: u16, parsed: Option<JsonValue>, body: Seq<char>) -> SpecOutcome {
    if 200 <= status && status < 300 {
        match spec_body_response(parsed) {
            None => SpecOutcome::Failure(
                PromptEnhancementErrorCode::Internal,
                "Failed to parse enhancer response."@,
            ),
            Some(p) => if p.enhanced_prompt is Some {
                SpecOutcome::Success(p.enhanced_prompt->0)
            } else {
                match p.error {
                    Some(e) => SpecOutcome::Failure(
                        match e.code {
                            Some(c) => spec_map_error_code(c),
                            None => PromptEnhancementErrorCode::Internal,
                        },
                        match e.message {
                            Some(m) => m,
                            None => "Prompt enhancer returned an error without message"@,
                        },
                    ),
                    None => SpecOutcome::Failure(
                        PromptEnhancementErrorCode::Internal,
                        "Prompt enhancer returned an empty response."@,
                    ),
                }
            },
        }
    } else {
        match spec_body_response(parsed) {
            Some(p) => match p.error {
                Some(e) => SpecOutcome::Failure(
                    match e.code {
                        Some(c) => spec_map_error_code(c),
                        None => spec_map_status(status),
                    },
                    match e.message {
                        Some(m) => m,
                        None => "Prompt enhancer error ("@ + spec_decimal(status as int) + "): "@
                            + body,
                    },
                ),
                None => spec_status_fallback(status, body),
            },
            None => spec_status_fallback(status, body),
        }
    }
}

/// What the send/cancel race reported back to the client.
pub enum SendEvent {
    /// The cancellation signal resolved first; the request was abandoned.
    Cancelled,
    /// The request resolved first, with a transport failure.
    TransportFailed { timed_out: bool, connect_failed: bool, message: String },
    /// The request resolved first, with a response.
    Response { status: u16 },
}

/// What the body-read/cancel race reported back to the client.
pub enum BodyEvent {
    /// The cancellation signal resolved first; the read was abandoned.
    Cancelled,
    /// The read resolved first, with a failure.
    ReadFailed { timed_out: bool, message: String },
    /// The read resolved first, with the body text.
    Body { text: String },
}

/// Where the first checkpoint sends the call.
pub enum StartStep {
    Cancelled,
    NotConfigured,
    Send(Seq<char>),
}

/// Where the second checkpoint sends the call.
pub enum SendStep {
    Cancelled,
    Fail(PromptEnhancementErrorCode, Seq<char>),
    Read(u16),
}

/// The first checkpoint: cancellation wins before anything else; an absent
/// endpoint is terminal; otherwise the call proceeds to the send.
pub open spec fn spec_start(config: PromptEnhancerConfig, cancelled: bool) -> StartStep {
    if cancelled {
        StartStep::Cancelled
    } else {
        match config.endpoint {
            None => StartStep::NotConfigured,
            Some(e) => StartStep::Send(e@),
        }
    }
}

/// The second checkpoint: a lost race is the cancellation outcome; a
/// transport failure classifies by its kind (timeout before connect);
/// otherwise the status goes on to the body read — unless cancellation
/// fired in the gap.
pub open spec fn spec_after_send(event: SendEvent, cancelled_after: bool) -> SendStep {
    match event {
        SendEvent::Cancelled => SendStep::Cancelled,
        SendEvent::TransportFailed { timed_out, connect_failed, message } => SendStep::Fail(
            if timed_out {
                PromptEnhancementErrorCode::Timeout
            } else if connect_failed {
                PromptEnhancementErrorCode::ServiceUnavailable
            } else {
                PromptEnhancementErrorCode::Internal
            },
            message@,
        ),
        SendEvent::Response { status } => if cancelled_after {
            SendStep::Cancelled
        } else {
            SendStep::Read(status)
        },
    }
}

/// The third checkpoint: a lost race is the cancellation outcome; a failed
/// read classifies as a transport failure; a body that arrived while
/// cancellation had fired still yields the cancellation outcome; otherwise
/// the `(status, body)` pair is classified, final.
pub open spec fn spec_after_body(status: u16, event: BodyEvent, cancelled_after: bool) -> SpecOutcome {
    match event {
        BodyEvent::Cancelled => SpecOutcome::Failure(
            PromptEnhancementErrorCode::Internal,
            "cancelled"@,
        ),
        BodyEvent::ReadFailed { timed_out, message } => SpecOutcome::Failure(
            if timed_out {
                PromptEnhancementErrorCode::Timeout
            } else {
                PromptEnhancementErrorCode::Internal
            },
            message@,
        ),
        BodyEvent::Body { text } => if cancelled_after {
            SpecOutcome::Failure(PromptEnhancementErrorCode::Internal, "cancelled"@)
        } else {
            spec_classify(status, json_parse(text@), text@)
        },
    }
}

/// A result that carries the one cancellation error.
pub open spec fn is_cancelled_result<T>(r: Result<T, PromptEnhancementError>) -> bool {
    r matches Err(e) && e.code == PromptEnhancementErrorCode::Internal && e.message@
        == "cancelled"@
}

impl HttpPromptEnhancerClient {
    /// A client that will classify calls under the given configuration.
    pub fn new(config: PromptEnhancerConfig) -> (r: Self)
        ensures
            r.config == config,
    {
        HttpPromptEnhancerClient { config }
    }

    pub fn map_error_code(code: &str) -> (r: PromptEnhancementErrorCode)
        ensures
            r == spec_map_error_code(code@),
    {
        if eq_ignore_ascii_case(code, "unsupported_format") {
            PromptEnhancementErrorCode::UnsupportedFormat
        } else if eq_ignore_ascii_case(code, "draft_too_large") || eq_ignore_ascii_case(
            code,
            "payload_too_large",
        ) {
            PromptEnhancementErrorCode::DraftTooLarge
        } else if eq_ignore_ascii_case(code, "timeout") {
            PromptEnhancementErrorCode::Timeout
        } else if eq_ignore_ascii_case(code, "service_unavailable") || eq_ignore_ascii_case(
            code,
            "overloaded",
        ) {
            PromptEnhancementErrorCode::ServiceUnavailable
        } else {
            PromptEnhancementErrorCode::Internal
        }
    }

    pub fn map_status(status: u16) -> (r: PromptEnhancementErrorCode)
        ensures
            r == spec_map_status(status),
    {
        if status == 408 || status == 504 || status == 429 {
            return PromptEnhancementErrorCode::Timeout;
        }
        if status == 413 {
            return PromptEnhancementErrorCode::DraftTooLarge;
        }
        if status == 415 {
            return PromptEnhancementErrorCode::UnsupportedFormat;
        }
        if 400 <= status && status < 600 {
            PromptEnhancementErrorCode::ServiceUnavailable
        } else {
            PromptEnhancementErrorCode::Internal
        }
    }

    /// The one cancellation error: a literal `Internal` instance.
    pub fn cancelled_error() -> (r: PromptEnhancementError)
        ensures
            r.code == PromptEnhancementErrorCode::Internal,
            r.message@ == "cancelled"@,
    {
        PromptEnhancementError {
            code: PromptEnhancementErrorCode::Internal,
            message: "cancelled".to_owned(),
        }
    }

    pub fn request_error(message: String, code: PromptEnhancementErrorCode) -> (r:
        PromptEnhancementError)
        ensures
            r.code == code,
            r.message == message,
    {
        PromptEnhancementError { code, message }
    }

    fn status_body_message(prefix: &str, status: u16, mid: &str, body: &str) -> (s: String)
        ensures
            s@ == prefix@ + spec_decimal(status as int) + mid@ + body@,
    {
        let mut s = prefix.to_owned();
        let digits = decimal_u16(status);
        s.append(digits.as_str());
        s.append(mid);
        s.append(body);
        s
    }

    /// Classifies an already-parsed body together with its status, exactly
    /// as [`spec_classify`] describes, whatever value the parser produced.
    pub fn classify_parsed(status: u16, parsed: &Option<JsonValue>, body: &str) -> (r: Result<
        String,
        PromptEnhancementError,
    >)
        ensures
            outcome_matches(r, spec_classify(status, *parsed, body@)),
    {
        let resp: Option<PromptEnhancerHttpResponse> = match parsed {
            Option::Some(v) => parse_http_response(v),
            Option::None => None,
        };
        if 200 <= status && status < 300 {
            match resp {
                Option::None => Err(
                    Self::request_error(
                        "Failed to parse enhancer response.".to_owned(),
                        PromptEnhancementErrorCode::Internal,
                    ),
                ),
                Option::Some(p) => match p.enhanced_prompt {
                    Option::Some(prompt) => Ok(prompt),
                    Option::None => match p.error {
                        Option::Some(e) => {
                            let PromptEnhancerHttpError { code, message } = e;
                            let mapped = match code {
                                Option::Some(c) => Self::map_error_code(c.as_str()),
                                Option::None => PromptEnhancementErrorCode::Internal,
                            };
                            let message = match message {
                                Option::Some(m) => m,
                                Option::None => "Prompt enhancer returned an error without message".to_owned(),
                            };
                            Err(Self::request_error(message, mapped))
                        },
                        Option::None => Err(
                            Self::request_error(
                                "Prompt enhancer returned an empty response.".to_owned(),
                                PromptEnhancementErrorCode::Internal,
                            ),
                        ),
                    },
                },
            }
        } else {
            match resp {
                Option::Some(p) => match p.error {
                    Option::Some(e) => {
                        let PromptEnhancerHttpError { code, message } = e;
                        let mapped = match code {
                            Option::Some(c) => Self::map_error_code(c.as_str()),
                            Option::None => Self::map_status(status),
                        };
                        let message = match message {
                            Option::Some(m) => m,
                            Option::None => Self::status_body_message(
                                "Prompt enhancer error (",
                                status,
                                "): ",
                                body,
                            ),
                        };
                        Err(Self::request_error(message, mapped))
                    },
                    Option::None => Err(Self::status_fallback_error(status, body)),
                },
                Option::None => Err(Self::status_fallback_error(status, body)),
            }
        }
    }

    fn status_fallback_error(status: u16, body: &str) -> (r: PromptEnhancementError)
        ensures
            SpecOutcome::Failure(r.code, r.message@) == spec_status_fallback(status, body@),
    {
        Self::request_error(
            Self::status_body_message("Prompt enhancer HTTP ", status, ": ", body),
            Self::map_status(status),
        )
    }

    /// The first checkpoint, before any I/O. A handle already cancelled
    /// wins outright; an absent endpoint is terminal; otherwise the call
    /// may proceed against the returned endpoint.
    pub fn start_enhance(&self, cancelled: bool) -> (r: Result<String, PromptEnhancementError>)
        ensures
            match spec_start(self.config, cancelled) {
                StartStep::Cancelled => is_cancelled_result(r),
                StartStep::NotConfigured => r matches Err(e) && e.code
                    == PromptEnhancementErrorCode::ServiceUnavailable && e.message@
                    == "Prompt enhancer endpoint is not configured."@,
                StartStep::Send(ep) => r matches Ok(s) && s@ == ep,
            },
    {
        if cancelled {
            return Err(Self::cancelled_error());
        }
        match &self.config.endpoint {
            Option::None => Err(
                Self::request_error(
                    "Prompt enhancer endpoint is not configured.".to_owned(),
                    PromptEnhancementErrorCode::ServiceUnavailable,
                ),
            ),
            Option::Some(e) => Ok(e.clone()),
        }
    }

    /// The second checkpoint, once the send/cancel race settles. A lost
    /// race or a transport failure is terminal; a response that arrives
    /// while cancellation has fired still yields the cancellation error.
    pub fn after_send(event: SendEvent, cancelled_after: bool) -> (r: Result<
        u16,
        PromptEnhancementError,
    >)
        ensures
            match spec_after_send(event, cancelled_after) {
                SendStep::Cancelled => r matches Err(e) && e.code
                    == PromptEnhancementErrorCode::Internal && e.message@ == "cancelled"@,
                SendStep::Fail(code, msg) => r matches Err(e) && e.code == code && e.message@
                    == msg,
                SendStep::Read(status) => r == Ok::<u16, PromptEnhancementError>(status),
            },
    {
        match event {
            SendEvent::Cancelled => Err(Self::cancelled_error()),
            SendEvent::TransportFailed { timed_out, connect_failed, message } => {
                let code = if timed_out {
                    PromptEnhancementErrorCode::Timeout
                } else if connect_failed {
                    PromptEnhancementErrorCode::ServiceUnavailable
                } else {
                    PromptEnhancementErrorCode::Internal
                };
                Err(Self::request_error(message, code))
            },
            SendEvent::Response { status } => {
                if cancelled_after {
                    Err(Self::cancelled_error())
                } else {
                    Ok(status)
                }
            },
        }
    }

    /// The third checkpoint, once the read/cancel race settles, ending in
    /// the final classification. Classification itself observes nothing
    /// further: its outcome is a function of the status and body alone.
    pub fn after_body(status: u16, event: BodyEvent, cancelled_after: bool) -> (r: Result<
        String,
        PromptEnhancementError,
    >)
        ensures
            outcome_matches(r, spec_after_body(status, event, cancelled_after)),
    {
        match event {
            BodyEvent::Cancelled => Err(Self::cancelled_error()),
            BodyEvent::ReadFailed { timed_out, message } => {
                let code = if timed_out {
                    PromptEnhancementErrorCode::Timeout
                } else {
                    PromptEnhancementErrorCode::Internal
                };
                Err(Self::request_error(message, code))
            },
            BodyEvent::Body { text } => {
                if cancelled_after {
                    Err(Self::cancelled_error())
                } else {
                    Self::classify_response(status, text.as_str())
                }
            },
        }
    }

    /// Classifies a raw `(status, body)` pair: parses the body once and
    /// classifies the result.
    pub fn classify_response(status: u16, body: &str) -> (r: Result<
        String,
        PromptEnhancementError,
    >)
        ensures
            outcome_matches(r, spec_classify(status, json_parse(body@), body@)),
    {
        let parsed = parse_json(body);
        Self::classify_parsed(status, &parsed, body)
    }
}

} // verus!
