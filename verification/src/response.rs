//! Response parsing: the raw body is handed to the JSON library behind a
//! trusted wrapper, comes back as a plain JSON tree of this crate's own
//! making, and everything after that — shape checking and extraction of the
//! first choice's text — is verified against the tree.
use vstd::prelude::*;

use crate::errors::VisionError;
use crate::text::str_eq;
use crate::types::{VisionChatResponse, VisionChoice, VisionChoiceMessage};

verus! {

/// A JSON tree holding only what the response reader looks at: numbers
/// collapse to a bare marker, since no number is ever read.
#[derive(Debug)]
pub enum JsonValue {
    Null,
    Bool(bool),
    Number,
    Str(String),
    Array(Vec<JsonValue>),
    Object(Vec<(String, JsonValue)>),
}

/// Declares serde_json's value type so the conversion below may take it;
/// the verifier sees nothing inside a value of it.
#[verifier::external_type_specification]
#[verifier::external_body]
pub struct ExSerdeJsonValue(serde_json::Value);

/// Maps the JSON library's tree one-for-one onto the crate's own tree: each
/// variant to its counterpart, numbers collapsing to the bare marker.
/// Relies on the six variants of serde_json::Value.
#[verifier::external_body]
fn convert_json_value(v: serde_json::Value) -> JsonValue {
    match v {
        serde_json::Value::Null => JsonValue::Null,
        serde_json::Value::Bool(b) => JsonValue::Bool(b),
        serde_json::Value::Number(_) => JsonValue::Number,
        serde_json::Value::String(s) => JsonValue::Str(s),
        serde_json::Value::Array(a) => JsonValue::Array(
            a.into_iter().map(convert_json_value).collect(),
        ),
        serde_json::Value::Object(o) => JsonValue::Object(
            o.into_iter().map(|(k, x)| (k, convert_json_value(x))).collect(),
        ),
    }
}

/// What parsing a text as JSON yields: the tree, or nothing when the text
/// is not valid JSON. The outcome is a function of the text alone.
pub uninterp spec fn json_of(text: Seq<char>) -> Option<JsonValue>;

/// Relies on serde_json::from_str::<serde_json::Value>: whether a text
/// parses, and what tree it parses to, depend on the text alone.
#[verifier::external_body]
pub(crate) fn parse_json(text: &str) -> (r: Option<JsonValue>)
    ensures
        r == json_of(text@),
{
    match serde_json::from_str::<serde_json::Value>(text) {
        Ok(v) => Some(convert_json_value(v)),
        Err(_) => None,
    }
}

/// The value of the first field named `key` in an object's field list.
pub open spec fn spec_lookup(fields: Seq<(String, JsonValue)>, key: Seq<char>) -> Option<
    JsonValue,
>
    decreases fields.len(),
{
    if fields.len() == 0 {
        None
    } else if fields[0].0@ == key {
        Some(fields[0].1)
    } else {
        spec_lookup(fields.drop_first(), key)
    }
}

fn lookup<'a>(fields: &'a Vec<(String, JsonValue)>, key: &str) -> (r: Option<&'a JsonValue>)
    ensures
        match spec_lookup(fields@, key@) {
            Some(v) => r matches Some(rv) && *rv == v,
            None => r is None,
        },
{
    let n = fields.len();
    proof {
        assert(fields@.subrange(0, n as int) =~= fields@);
    }
    let mut i: usize = 0;
    while i < n
        invariant
            i <= n,
            n == fields@.len(),
            spec_lookup(fields@, key@) == spec_lookup(
                fields@.subrange(i as int, n as int),
                key@,
            ),
        decreases n - i,
    {
        if str_eq(fields[i].0.as_str(), key) {
            return Some(&fields[i].1);
        }
        proof {
            assert(fields@.subrange(i as int, n as int).drop_first() =~= fields@.subrange(
                i + 1,
                n as int,
            ));
        }
        i += 1;
    }
    None
}

/// A choice element is well-shaped when it is an object whose "message"
/// field is an object, and that message's "content" field, where present,
/// is a string or null.
pub open spec fn spec_valid_choice(c: JsonValue) -> bool {
    c matches JsonValue::Object(fs) && match spec_lookup(fs@, "message"@) {
        Some(JsonValue::Object(ms)) => match spec_lookup(ms@, "content"@) {
            None => true,
            Some(JsonValue::Str(_)) => true,
            Some(JsonValue::Null) => true,
            Some(_) => false,
        },
        _ => false,
    }
}

/// The text a well-shaped choice carries, when any.
pub open spec fn spec_choice_content(c: JsonValue) -> Option<Seq<char>> {
    match c {
        JsonValue::Object(fs) => match spec_lookup(fs@, "message"@) {
            Some(JsonValue::Object(ms)) => match spec_lookup(ms@, "content"@) {
                Some(JsonValue::Str(s)) => Some(s@),
                _ => None,
            },
            _ => None,
        },
        _ => None,
    }
}

/// The elements of the top-level "choices" array, when the body is an
/// object that has one.
pub open spec fn spec_response_choices(v: JsonValue) -> Option<Seq<JsonValue>> {
    match v {
        JsonValue::Object(fs) => match spec_lookup(fs@, "choices"@) {
            Some(JsonValue::Array(cs)) => Some(cs@),
            _ => None,
        },
        _ => None,
    }
}

/// A body matches the response shape when its top level is an object with a
/// "choices" array all of whose elements are well-shaped choices.
pub open spec fn spec_valid_response(v: JsonValue) -> bool {
    spec_response_choices(v) matches Some(cs) && (forall|i: int|
        0 <= i < cs.len() ==> spec_valid_choice(#[trigger] cs[i]))
}

/// Decodes a JSON tree into the typed response shape, failing when the
/// tree does not match it.
pub fn decode_response(v: &JsonValue) -> (r: Result<VisionChatResponse, VisionError>)
    ensures
        !spec_valid_response(*v) ==> r == Err::<VisionChatResponse, VisionError>(
            VisionError::ParseError,
        ),
        spec_valid_response(*v) ==> (r matches Ok(resp) && {
            let cs = spec_response_choices(*v)->Some_0;
            &&& resp.choices@.len() == cs.len()
            &&& forall|i: int|
                0 <= i < cs.len() ==> match spec_choice_content(#[trigger] cs[i]) {
                    Some(s) => resp.choices@[i].message.content matches Some(t) && t@ == s,
                    None => resp.choices@[i].message.content is None,
                }
        }),
{
    let fs = match v {
        JsonValue::Object(fs) => fs,
        _ => {
            return Err(VisionError::ParseError);
        },
    };
    let cs = match lookup(fs, "choices") {
        Some(JsonValue::Array(cs)) => cs,
        _ => {
            return Err(VisionError::ParseError);
        },
    };
    let n = cs.len();
    let mut choices: Vec<VisionChoice> = Vec::new();
    let mut i: usize = 0;
    while i < n
        invariant
            i <= n,
            n == cs@.len(),
            spec_response_choices(*v) == Some(cs@),
            choices@.len() == i,
            forall|j: int| 0 <= j < i ==> spec_valid_choice(#[trigger] cs@[j]),
            forall|j: int|
                0 <= j < i ==> match spec_choice_content(#[trigger] cs@[j]) {
                    Some(s) => choices@[j].message.content matches Some(t) && t@ == s,
                    None => choices@[j].message.content is None,
                },
        decreases n - i,
    {
        let mfs = match &cs[i] {
            JsonValue::Object(mfs) => mfs,
            _ => {
                return Err(VisionError::ParseError);
            },
        };
        let ms = match lookup(mfs, "message") {
            Some(JsonValue::Object(ms)) => ms,
            _ => {
                return Err(VisionError::ParseError);
            },
        };
        let content: Option<String> = match lookup(ms, "content") {
            None => None,
            Some(JsonValue::Null) => None,
            Some(JsonValue::Str(s)) => Some(s.clone()),
            Some(_) => {
                return Err(VisionError::ParseError);
            },
        };
        choices.push(VisionChoice { message: VisionChoiceMessage { content } });
        i += 1;
    }
    Ok(VisionChatResponse { choices })
}

/// Takes the first choice's text out of a decoded response: an empty choice
/// list and an absent content field both count as missing content, and no
/// later choice is ever consulted.
pub fn first_content(resp: &VisionChatResponse) -> (r: Result<String, VisionError>)
    ensures
        resp.choices@.len() == 0 ==> r == Err::<String, VisionError>(
            VisionError::MissingContent,
        ),
        resp.choices@.len() > 0 ==> match resp.choices@[0].message.content {
            Some(s) => r matches Ok(t) && t == s,
            None => r == Err::<String, VisionError>(VisionError::MissingContent),
        },
{
    if resp.choices.len() == 0 {
        return Err(VisionError::MissingContent);
    }
    match &resp.choices[0].message.content {
        Some(s) => Ok(s.clone()),
        None => Err(VisionError::MissingContent),
    }
}

/// The parser's whole contract: what extracting text from a raw body must
/// yield. A body that is not JSON of the expected shape is a parse failure;
/// a parsed body with no choice at all, or whose first choice carries no
/// text, is missing content; otherwise the first choice's text comes back.
pub open spec fn spec_completion_outcome(raw: Seq<char>, r: Result<String, VisionError>) -> bool {
    match json_of(raw) {
        None => r == Err::<String, VisionError>(VisionError::ParseError),
        Some(v) => {
            if !spec_valid_response(v) {
                r == Err::<String, VisionError>(VisionError::ParseError)
            } else {
                let cs = spec_response_choices(v)->Some_0;
                if cs.len() == 0 {
                    r == Err::<String, VisionError>(VisionError::MissingContent)
                } else {
                    match spec_choice_content(cs[0]) {
                        Some(s) => r matches Ok(t) && t@ == s,
                        None => r == Err::<String, VisionError>(VisionError::MissingContent),
                    }
                }
            }
        },
    }
}

/// Parses a raw response body and extracts the generated text, as
/// `spec_completion_outcome` prescribes.
pub fn parse_completion(raw: &str) -> (r: Result<String, VisionError>)
    ensures
        spec_completion_outcome(raw@, r),
{
    let parsed = match parse_json(raw) {
        Some(parsed) => parsed,
        None => {
            return Err(VisionError::ParseError);
        },
    };
    let resp = decode_response(&parsed)?;
    first_content(&resp)
}

} // verus!
