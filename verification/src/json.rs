//! A plain-value model of JSON documents, a trusted bridge to `serde_json`,
//! and the verified interpretation of enhancement-service response bodies.

use vstd::prelude::*;
use crate::text::str_eq;

verus! {

#[verifier::external_type_specification]
#[verifier::external_body]
pub struct ExValue(serde_json::Value);

/// A JSON document as plain values. Numeric payloads are not kept: the
/// enhancement protocol never reads a number out of a response body.
pub enum JsonValue {
    Null,
    Bool(bool),
    Number,
    Text(String),
    Array(Vec<JsonValue>),
    Object(Vec<(String, JsonValue)>),
}

/// What `serde_json` parses the given text into, `None` for a syntax error.
pub uninterp spec fn json_parse(s: Seq<char>) -> Option<JsonValue>;

/// Relies on `serde_json::from_str::<serde_json::Value>`: the parse is a pure
/// function of the input text, and `Err` reports a syntax error.
#[verifier::external_body]
pub fn parse_json(body: &str) -> (r: Option<JsonValue>)
    ensures
        r == json_parse(body@),
{
    match serde_json::from_str::<serde_json::Value>(body) {
        Ok(v) => Some(convert_json(v)),
        Err(_) => None,
    }
}

/// Relies on `serde_json::Value`: each variant is carried over one-for-one
/// (object keys collapse duplicates the way `serde_json::Map` does).
#[verifier::external_body]
fn convert_json(v: serde_json::Value) -> JsonValue {
    match v {
        serde_json::Value::Null => JsonValue::Null,
        serde_json::Value::Bool(b) => JsonValue::Bool(b),
        serde_json::Value::Number(_) => JsonValue::Number,
        serde_json::Value::String(s) => JsonValue::Text(s),
        serde_json::Value::Array(a) => JsonValue::Array(
            a.into_iter().map(convert_json).collect(),
        ),
        serde_json::Value::Object(m) => JsonValue::Object(
            m.into_iter().map(|(k, f)| (k, convert_json(f))).collect(),
        ),
    }
}

/// The value under the first entry with the given key, if any.
pub open spec fn spec_lookup(entries: Seq<(String, JsonValue)>, key: Seq<char>) -> Option<
    JsonValue,
>
    decreases entries.len(),
{
    if entries.len() == 0 {
        None
    } else if entries[0].0@ == key {
        Some(entries[0].1)
    } else {
        spec_lookup(entries.drop_first(), key)
    }
}

proof fn lemma_lookup_skip(entries: Seq<(String, JsonValue)>, key: Seq<char>, i: int)
    requires
        0 <= i <= entries.len(),
        forall|j: int| 0 <= j < i ==> entries[j].0@ != key,
    ensures
        spec_lookup(entries, key) == spec_lookup(entries.skip(i), key),
    decreases i,
{
    if i > 0 {
        lemma_lookup_skip(entries.drop_first(), key, i - 1);
        assert(entries.drop_first().skip(i - 1) =~= entries.skip(i));
    } else {
        assert(entries.skip(0) =~= entries);
    }
}

pub fn lookup<'a>(entries: &'a Vec<(String, JsonValue)>, key: &str) -> (r: Option<&'a JsonValue>)
    ensures
        match r {
            Some(v) => spec_lookup(entries@, key@) == Some(*v),
            None => spec_lookup(entries@, key@) is None,
        },
{
    let n = entries.len();
    let mut i: usize = 0;
    while i < n
        invariant
            n == entries@.len(),
            i <= n,
            forall|j: int| 0 <= j < i ==> entries@[j].0@ != key@,
        decreases n - i,
    {
        if str_eq(entries[i].0.as_str(), key) {
            proof {
                lemma_lookup_skip(entries@, key@, i as int);
                assert(entries@.skip(i as int)[0] == entries@[i as int]);
            }
            return Some(&entries[i].1);
        }
        i += 1;
    }
    proof {
        lemma_lookup_skip(entries@, key@, n as int);
        assert(entries@.skip(n as int) =~= Seq::<(String, JsonValue)>::empty());
    }
    None
}

/// A structured service error found in a response body.
pub struct PromptEnhancerHttpError {
    pub code: Option<String>,
    pub message: Option<String>,
}

/// The shape every response body is read against: an optional enhanced
/// prompt and an optional structured error.
pub struct PromptEnhancerHttpResponse {
    pub enhanced_prompt: Option<String>,
    pub error: Option<PromptEnhancerHttpError>,
}

pub struct SpecHttpError {
    pub code: Option<Seq<char>>,
    pub message: Option<Seq<char>>,
}

pub struct SpecHttpResponse {
    pub enhanced_prompt: Option<Seq<char>>,
    pub error: Option<SpecHttpError>,
}

pub open spec fn view_opt_string(o: Option<String>) -> Option<Seq<char>> {
    match o {
        Some(s) => Some(s@),
        None => None,
    }
}

impl View for PromptEnhancerHttpError {
    type V = SpecHttpError;

    open spec fn view(&self) -> SpecHttpError {
        SpecHttpError { code: view_opt_string(self.code), message: view_opt_string(self.message) }
    }
}

impl View for PromptEnhancerHttpResponse {
    type V = SpecHttpResponse;

    open spec fn view(&self) -> SpecHttpResponse {
        SpecHttpResponse {
            enhanced_prompt: view_opt_string(self.enhanced_prompt),
            error: match self.error {
                Some(e) => Some(e@),
                None => None,
            },
        }
    }
}

/// Reads an optional string field. `None` marks a value the schema refuses;
/// `Some(None)` an absent or null field.
pub open spec fn spec_opt_text_field(f: Option<JsonValue>) -> Option<Option<Seq<char>>> {
    match f {
        Option::None => Some(None),
        Option::Some(v) => match v {
            JsonValue::Null => Some(None),
            JsonValue::Text(s) => Some(Some(s@)),
            _ => None,
        },
    }
}

/// Reads a structured error object; anything but an object is refused.
pub open spec fn spec_interpret_error(v: JsonValue) -> Option<SpecHttpError> {
    match v {
        JsonValue::Object(entries) => {
            let c = spec_opt_text_field(spec_lookup(entries@, "code"@));
            let m = spec_opt_text_field(spec_lookup(entries@, "message"@));
            if c is Some && m is Some {
                Some(SpecHttpError { code: c->0, message: m->0 })
            } else {
                None
            }
        },
        _ => None,
    }
}

/// Reads a whole response body value against the response shape; `None`
/// marks a body whose deserialization fails.
pub open spec fn spec_interpret_response(v: JsonValue) -> Option<SpecHttpResponse> {
    match v {
        JsonValue::Object(entries) => {
            let ep = spec_opt_text_field(spec_lookup(entries@, "enhanced_prompt"@));
            if ep is None {
                None
            } else {
                match spec_lookup(entries@, "error"@) {
                    Option::None => Some(
                        SpecHttpResponse { enhanced_prompt: ep->0, error: None },
                    ),
                    Option::Some(ev) => match ev {
                        JsonValue::Null => Some(
                            SpecHttpResponse { enhanced_prompt: ep->0, error: None },
                        ),
                        _ => match spec_interpret_error(ev) {
                            Option::None => None,
                            Option::Some(e) => Some(
                                SpecHttpResponse { enhanced_prompt: ep->0, error: Some(e) },
                            ),
                        },
                    },
                }
            }
        },
        _ => None,
    }
}

fn opt_text_field(f: Option<&JsonValue>) -> (r: Option<Option<String>>)
    ensures
        ({
            let sf = match f {
                Some(v) => Some(*v),
                None => None::<JsonValue>,
            };
            match r {
                Some(o) => spec_opt_text_field(sf) == Some(view_opt_string(o)),
                None => spec_opt_text_field(sf) is None,
            }
        }),
{
    match f {
        Option::None => Some(None),
        Option::Some(JsonValue::Null) => Some(None),
        Option::Some(JsonValue::Text(s)) => Some(Some(s.clone())),
        Option::Some(_) => None,
    }
}

fn parse_http_error(v: &JsonValue) -> (r: Option<PromptEnhancerHttpError>)
    ensures
        match r {
            Some(e) => spec_interpret_error(*v) == Some(e@),
            None => spec_interpret_error(*v) is None,
        },
{
    match v {
        JsonValue::Object(entries) => {
            let code = match opt_text_field(lookup(entries, "code")) {
                Some(o) => o,
                None => {
                    return None;
                },
            };
            let message = match opt_text_field(lookup(entries, "message")) {
                Some(o) => o,
                None => {
                    return None;
                },
            };
            Some(PromptEnhancerHttpError { code, message })
        },
        _ => None,
    }
}

/// Reads a parsed body against the response shape, exactly as
/// [`spec_interpret_response`] describes.
pub fn parse_http_response(v: &JsonValue) -> (r: Option<PromptEnhancerHttpResponse>)
    ensures
        match r {
            Some(p) => spec_interpret_response(*v) == Some(p@),
            None => spec_interpret_response(*v) is None,
        },
{
    match v {
        JsonValue::Object(entries) => {
            let enhanced_prompt = match opt_text_field(lookup(entries, "enhanced_prompt")) {
                Some(o) => o,
                None => {
                    return None;
                },
            };
            match lookup(entries, "error") {
                Option::None => Some(
                    PromptEnhancerHttpResponse { enhanced_prompt, error: None },
                ),
                Option::Some(ev) => match ev {
                    JsonValue::Null => Some(
                        PromptEnhancerHttpResponse { enhanced_prompt, error: None },
                    ),
                    _ => match parse_http_error(ev) {
                        Option::None => None,
                        Option::Some(e) => Some(
                            PromptEnhancerHttpResponse { enhanced_prompt, error: Some(e) },
                        ),
                    },
                },
            }
        },
        _ => None,
    }
}

} // verus!
