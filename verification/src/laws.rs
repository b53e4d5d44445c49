//! Laws of the enhancement protocol, each proved over the same spec
//! functions the executable functions' contracts use.

use vstd::prelude::*;
use crate::enhancer::{
    spec_after_body, spec_body_response, spec_classify, spec_map_error_code, spec_map_status,
    spec_start, spec_status_fallback, BodyEvent, PromptEnhancementErrorCode,
    PromptEnhancerConfig, SpecOutcome, StartStep,
};
use crate::json::{json_parse, JsonValue};
use crate::text::spec_decimal;

verus! {

/// A handle already cancelled when the call starts wins outright: the
/// first checkpoint ends the call with the cancellation outcome, whatever
/// the configuration, so no send is ever reached.
pub proof fn law_cancelled_before_start(config: PromptEnhancerConfig)
    ensures
        spec_start(config, true) == StartStep::Cancelled,
        forall|ep: Seq<char>| spec_start(config, true) != StartStep::Send(ep),
{
}

/// A 2xx response whose body is an object carrying exactly an
/// `enhanced_prompt` string succeeds with that string, whatever the body
/// text around it.
pub proof fn law_success_prompt(status: u16, v: JsonValue, body: Seq<char>, prompt: Seq<char>)
    requires
        200 <= status && status < 300,
        v matches JsonValue::Object(entries) && entries@.len() == 1 && entries@[0].0@
            == "enhanced_prompt"@ && (entries@[0].1 matches JsonValue::Text(s) && s@ == prompt),
    ensures
        spec_classify(status, Some(v), body) == SpecOutcome::Success(prompt),
{
    reveal_strlit("enhanced_prompt");
    reveal_strlit("error");
    let entries = v->Object_0;
    assert("enhanced_prompt"@.len() == 15);
    assert("error"@.len() == 5);
    assert(entries@.drop_first().len() == 0);
    assert(crate::json::spec_lookup(entries@.drop_first(), "error"@) is None);
    assert(crate::json::spec_lookup(entries@, "error"@) is None);
}

/// A 2xx response whose body is an object carrying exactly a structured
/// error with code `draft_too_large` and a message fails with
/// `DraftTooLarge` and that very message.
pub proof fn law_error_code_draft_too_large(
    status: u16,
    v: JsonValue,
    body: Seq<char>,
    msg: Seq<char>,
)
    requires
        200 <= status && status < 300,
        v matches JsonValue::Object(entries) && entries@.len() == 1 && entries@[0].0@ == "error"@
            && (entries@[0].1 matches JsonValue::Object(inner) && inner@.len() == 2
            && inner@[0].0@ == "code"@ && (inner@[0].1 matches JsonValue::Text(c) && c@
            == "draft_too_large"@) && inner@[1].0@ == "message"@ && (
        inner@[1].1 matches JsonValue::Text(m) && m@ == msg)),
    ensures
        spec_classify(status, Some(v), body) == SpecOutcome::Failure(
            PromptEnhancementErrorCode::DraftTooLarge,
            msg,
        ),
{
    reveal_strlit("enhanced_prompt");
    reveal_strlit("error");
    reveal_strlit("code");
    reveal_strlit("message");
    reveal_strlit("draft_too_large");
    reveal_strlit("unsupported_format");
    reveal_strlit("payload_too_large");
    let entries = v->Object_0;
    assert("enhanced_prompt"@.len() == 15);
    assert("error"@.len() == 5);
    assert("code"@.len() == 4);
    assert("message"@.len() == 7);
    assert("draft_too_large"@.len() == 15);
    assert("unsupported_format"@.len() == 18);
    assert("payload_too_large"@.len() == 17);
    assert(entries@.drop_first().len() == 0);
    assert(crate::json::spec_lookup(entries@.drop_first(), "enhanced_prompt"@) is None);
    assert(crate::json::spec_lookup(entries@, "enhanced_prompt"@) is None);
    let inner = entries@[0].1->Object_0;
    assert(inner@.drop_first()[0] == inner@[1]);
    assert(crate::json::spec_lookup(inner@.drop_first(), "message"@) == Some(inner@[1].1));
    assert(crate::json::spec_lookup(inner@, "message"@) == Some(inner@[1].1));
    let c = inner@[0].1->Text_0;
    assert(spec_map_error_code(c@) == PromptEnhancementErrorCode::DraftTooLarge);
}

/// A non-2xx 504 response without a structured error body fails with the
/// status mapping, and that mapping is `Timeout`.
pub proof fn law_status_504_times_out(parsed: Option<JsonValue>, body: Seq<char>)
    requires
        match spec_body_response(parsed) {
            Some(p) => p.error is None,
            None => true,
        },
    ensures
        spec_classify(504, parsed, body) == spec_status_fallback(504, body),
        spec_classify(504, parsed, body) matches SpecOutcome::Failure(code, m) && code
            == PromptEnhancementErrorCode::Timeout,
{
}

/// A non-2xx response whose body is not JSON at all falls back entirely to
/// the status mapping, with a message that embeds the raw status and the
/// raw body text.
pub proof fn law_unparseable_body_falls_back(status: u16, body: Seq<char>)
    requires
        !(200 <= status && status < 300),
    ensures
        spec_classify(status, None, body) == SpecOutcome::Failure(
            spec_map_status(status),
            "Prompt enhancer HTTP "@ + spec_decimal(status as int) + ": "@ + body,
        ),
{
}

/// A structured service code in a non-2xx body takes precedence over the
/// status-derived mapping.
pub proof fn law_service_code_takes_precedence(
    status: u16,
    parsed: Option<JsonValue>,
    body: Seq<char>,
    c: Seq<char>,
)
    requires
        !(200 <= status && status < 300),
        spec_body_response(parsed) matches Some(p) && p.error matches Some(e) && e.code == Some(c),
    ensures
        spec_classify(status, parsed, body) matches SpecOutcome::Failure(code, m) && code
            == spec_map_error_code(c),
{
}

/// Once the body has arrived and the final checkpoint saw no cancellation,
/// the outcome is exactly the classification of the `(status, body)` pair:
/// the protocol has no later cancellation-sensitive step, so a signal fired
/// after classification cannot overwrite an already-determined result.
pub proof fn law_late_cancellation_has_no_effect(status: u16, text: String)
    ensures
        spec_after_body(status, BodyEvent::Body { text }, false) == spec_classify(
            status,
            json_parse(text@),
            text@,
        ),
{
}

} // verus!
