//! Interpretation of the service's JSON response: a service-reported `error`
//! string takes priority, then the `translatedText` string is the output, and
//! anything else is a parse error.

use vstd::prelude::*;

use crate::error::TranslateError;

verus! {

/// The message serde_json's parser reports for a body that is not valid
/// JSON, if any (`None` when the body parses); a function of the body text
/// alone.
pub uninterp spec fn parse_error_of(body: Seq<char>) -> Option<Seq<char>>;

/// The string under the given key of the JSON document a body parses to
/// (`None` when the document is not an object, lacks the key, or holds a
/// non-string there); a function of the body text and the key alone.
pub uninterp spec fn string_field_of(body: Seq<char>, key: Seq<char>) -> Option<Seq<char>>;

/// The service's own error channel: the `error` string field of a response
/// body.
pub open spec fn error_field_of(body: Seq<char>) -> Option<Seq<char>> {
    string_field_of(body, "error"@)
}

/// The payload of a successful response: the `translatedText` string field
/// of a response body.
pub open spec fn translated_of(body: Seq<char>) -> Option<Seq<char>> {
    string_field_of(body, "translatedText"@)
}

/// Relies on `serde_json::from_str::<Value>`, `Value::get` and
/// `Value::as_str`, each a function of its arguments alone: parses the body
/// once and reads the string fields under the two given keys, or reports the
/// parser's message when the body is not valid JSON.
#[verifier::external_body]
fn json_string_fields(body: &str, first: &str, second: &str) -> (r: (
    Option<String>,
    Option<String>,
    Option<String>,
))
    ensures
        match parse_error_of(body@) {
            Some(m) => r.0 matches Some(s) && s@ == m,
            None => r.0 is None,
        },
        parse_error_of(body@) is None ==> match string_field_of(body@, first@) {
            Some(v) => r.1 matches Some(s) && s@ == v,
            None => r.1 is None,
        },
        parse_error_of(body@) is None ==> match string_field_of(body@, second@) {
            Some(v) => r.2 matches Some(s) && s@ == v,
            None => r.2 is None,
        },
{
    match serde_json::from_str::<serde_json::Value>(body) {
        Err(e) => (Some(e.to_string()), None, None),
        Ok(v) => (
            None,
            v.get(first).and_then(|f| f.as_str()).map(|s| s.to_string()),
            v.get(second).and_then(|f| f.as_str()).map(|s| s.to_string()),
        ),
    }
}

/// The message reported when the response carries no usable output.
pub open spec fn missing_output_message() -> Seq<char> {
    "Unable to find translatedText in parsed JSON"@
}

impl TranslateError {
    /// Whether this is a `ParseError` carrying exactly the given message.
    pub open spec fn is_parse_error_with(self, m: Seq<char>) -> bool {
        self matches TranslateError::ParseError(t) && t@ == m
    }
}

/// Decide the result of a response from the three observations made of its
/// body: a parse failure's message wins, then a service-reported `error`,
/// then `translatedText` is the output, and with none of them the response is
/// rejected as missing its output.
pub fn extract_output(
    parse_error: Option<String>,
    error_field: Option<String>,
    translated: Option<String>,
) -> (r: Result<String, TranslateError>)
    ensures
        parse_error matches Some(m) ==> (r matches Err(e) && e.is_parse_error_with(m@)),
        parse_error is None ==> (error_field matches Some(m) ==> (r matches Err(e)
            && e.is_parse_error_with(m@))),
        parse_error is None && error_field is None ==> (translated matches Some(t) ==> (
        r matches Ok(o) && o@ == t@)),
        parse_error is None && error_field is None && translated is None ==> (r matches Err(e)
            && e.is_parse_error_with(missing_output_message())),
{
    match parse_error {
        Some(m) => Err(TranslateError::ParseError(m)),
        None => match error_field {
            Some(m) => Err(TranslateError::ParseError(m)),
            None => match translated {
                Some(t) => Ok(t),
                None => Err(
                    TranslateError::ParseError(
                        String::from_str("Unable to find translatedText in parsed JSON"),
                    ),
                ),
            },
        },
    }
}

/// Parse a response body and extract its output: the `translatedText` string
/// is the output, unless the body is not JSON (the parser's message) or the
/// service reported an `error` string (that string), both of which surface as
/// a `ParseError`; a response with none of them is rejected as missing its
/// output.
pub fn response_output(body: &str) -> (r: Result<String, TranslateError>)
    ensures
        r is Err ==> r->Err_0 is ParseError,
        r is Ok <==> (parse_error_of(body@) is None && error_field_of(body@) is None
            && translated_of(body@) is Some),
        parse_error_of(body@) matches Some(m) ==> (r matches Err(e) && e.is_parse_error_with(m)),
        parse_error_of(body@) is None ==> (error_field_of(body@) matches Some(m) ==> (r matches Err(
            e,
        ) && e.is_parse_error_with(m))),
        parse_error_of(body@) is None && error_field_of(body@) is None ==> (translated_of(body@)
            matches Some(t) ==> (r matches Ok(o) && o@ == t)),
        parse_error_of(body@) is None && error_field_of(body@) is None && translated_of(body@)
            is None ==> (r matches Err(e) && e.is_parse_error_with(missing_output_message())),
{
    let (parse_error, error_field, translated): (
        Option<String>,
        Option<String>,
        Option<String>,
    ) = json_string_fields(body, "error", "translatedText");
    extract_output(parse_error, error_field, translated)
}

} // verus!
