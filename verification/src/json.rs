//! The JSON text of a provider's error response, read through `serde_json`.

use crate::text::viewed;
use vstd::prelude::*;

verus! {

/// What a JSON document holds. The value of a boolean or of a number is left out: nothing here
/// reads one.
pub enum Json {
    Null,
    Bool,
    Number,
    Text(Seq<char>),
    Array(Seq<Json>),
    Object(Map<Seq<char>, Json>),
}

/// A parsed JSON document of `serde_json`.
#[verifier::external_type_specification]
#[verifier::external_body]
pub struct ExValue(serde_json::Value);

/// The reason for which `serde_json` refuses a text.
#[verifier::external_type_specification]
#[verifier::external_body]
pub struct ExError(serde_json::Error);

/// What a `serde_json::Value` holds.
pub uninterp spec fn json_contents(value: serde_json::Value) -> Json;

/// The document that `serde_json::from_str` reads from a text, or `None` where it refuses the text.
pub uninterp spec fn parsed_json(text: Seq<char>) -> Option<Json>;

/// `serde_json::from_str`, for a whole document: what it reads, and whether it reads anything,
/// depends on the text alone.
#[verifier::external_body]
fn parse(text: &str) -> (result: Result<serde_json::Value, serde_json::Error>)
    ensures
        match result {
            Ok(value) => parsed_json(text@) == Some(json_contents(value)),
            Err(_) => parsed_json(text@) is None,
        },
{
    serde_json::from_str(text)
}

/// The member of an object under a key, and null where there is no such member.
pub open spec fn json_member(json: Json, key: Seq<char>) -> Json {
    match json {
        Json::Object(members) => if members.contains_key(key) {
            members[key]
        } else {
            Json::Null
        },
        _ => Json::Null,
    }
}

/// The index operator of `serde_json::Value` with a string key: the member of an object under that
/// key, and null where the value is no object or has no such member.
#[verifier::external_body]
fn member<'v>(value: &'v serde_json::Value, key: &str) -> (found: &'v serde_json::Value)
    ensures
        json_contents(*found) == json_member(json_contents(*value), key@),
{
    &value[key]
}

/// `serde_json::Value::as_str` gives the text of a JSON string, and nothing for any other value.
pub assume_specification[ serde_json::Value::as_str ](value: &serde_json::Value) -> (text: Option<
    &str,
>)
    ensures
        match text {
            Some(text) => json_contents(*value) == Json::Text(text@),
            None => !(json_contents(*value) is Text),
        },
;

/// The text of a JSON string.
pub open spec fn json_text(json: Json) -> Option<Seq<char>> {
    match json {
        Json::Text(text) => Some(text),
        _ => None,
    }
}

/// The code that a provider gives for an error: the string under `error.code`, else the string
/// under `error.type`, in a body that is a JSON document.
pub open spec fn error_code_of(document: Option<Json>) -> Option<Seq<char>> {
    match document {
        Some(json) => {
            let error = json_member(json, "error"@);
            match json_text(json_member(error, "code"@)) {
                Some(code) => Some(code),
                None => json_text(json_member(error, "type"@)),
            }
        },
        None => None,
    }
}

/// Reads the error code in the body of an error response.
pub fn error_code(body: &str) -> (code: Option<String>)
    ensures
        viewed(code) == error_code_of(parsed_json(body@)),
{
    match parse(body) {
        Ok(value) => error_code_in(&value),
        Err(_) => None,
    }
}

/// Reads the error code in a parsed error response.
pub fn error_code_in(value: &serde_json::Value) -> (code: Option<String>)
    ensures
        viewed(code) == error_code_of(Some(json_contents(*value))),
{
    let error = member(value, "error");
    match member(error, "code").as_str() {
        Some(code) => Some(code.to_owned()),
        None => match member(error, "type").as_str() {
            Some(code) => Some(code.to_owned()),
            None => None,
        },
    }
}

/// The string under `error.code` is the error code, whatever stands beside it.
pub proof fn law_codes_go_before_types(
    members: Map<Seq<char>, Json>,
    error: Map<Seq<char>, Json>,
    code: Seq<char>,
)
    requires
        members.contains_pair("error"@, Json::Object(error)),
        error.contains_pair("code"@, Json::Text(code)),
    ensures
        error_code_of(Some(Json::Object(members))) == Some(code),
{
}

/// Where `error.code` is no string, the string under `error.type` is the error code, and where that
/// is none either, there is no code.
pub proof fn law_types_stand_in_for_codes(
    members: Map<Seq<char>, Json>,
    error: Map<Seq<char>, Json>,
)
    requires
        members.contains_pair("error"@, Json::Object(error)),
        error.contains_key("code"@) ==> !(error["code"@] is Text),
    ensures
        match error_code_of(Some(Json::Object(members))) {
            Some(code) => error.contains_pair("type"@, Json::Text(code)),
            None => error.contains_key("type"@) ==> !(error["type"@] is Text),
        },
{
}

/// There is no error code without an object under `error` in a document that is an object itself.
pub proof fn law_codes_stand_in_an_error_object(document: Option<Json>)
    ensures
        error_code_of(document) is Some ==> document is Some && (document->0 matches Json::Object(
            members,
        ) && members.contains_key("error"@) && members["error"@] is Object),
{
}

} // verus!
