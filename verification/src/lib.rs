//! A client library for a remote machine-translation web service. The
//! executable pipeline — language registry, detection, request construction
//! and response interpretation — is verified; the HTTP transport itself is
//! left to the caller, who posts a [`PreparedRequest`]'s body to its URL and
//! hands the outcome back to [`complete_translation`].

use vstd::prelude::*;

pub mod builder;
pub mod detect;
pub mod error;
pub mod languages;
pub mod request;
pub mod response;
pub mod text;
pub mod traits;

pub use builder::TranslationBuilder;
pub use detect::detect;
pub use error::LanguageError;
pub use error::TranslateError;
pub use languages::Language;
pub use request::PreparedRequest;
pub use traits::Query;
pub use traits::Translate;

use crate::detect::detect_spec;
use crate::languages::code_spec;
use crate::request::normalize_url;
use crate::request::normalized_url;
use crate::request::request_body;
use crate::request::request_body_spec;
use crate::response::error_field_of;
use crate::response::missing_output_message;
use crate::response::parse_error_of;
use crate::response::response_output;
use crate::response::translated_of;
use crate::text::str_eq;

verus! {

/// Data that is output by a completed translation.
#[derive(Debug, Clone, Hash)]
pub struct Translation {
    /// The endpoint actually used.
    pub url: String,
    /// The resolved source language: never the detection sentinel when the
    /// executor produced this value.
    pub source: Language,
    /// The target language.
    pub target: Language,
    /// The original input text.
    pub input: String,
    /// The translated text.
    pub output: String,
}

impl PartialEq for Translation {
    fn eq(&self, other: &Translation) -> (r: bool) {
        str_eq(self.url.as_str(), other.url.as_str()) && self.source == other.source
            && self.target == other.target && str_eq(self.input.as_str(), other.input.as_str())
            && str_eq(self.output.as_str(), other.output.as_str())
    }
}

impl vstd::std_specs::cmp::PartialEqSpecImpl for Translation {
    open spec fn obeys_eq_spec() -> bool {
        true
    }

    open spec fn eq_spec(&self, other: &Translation) -> bool {
        self.url@ == other.url@ && self.source == other.source && self.target == other.target
            && self.input@ == other.input@ && self.output@ == other.output@
    }
}

/// The well-known public endpoint used when no URL is supplied.
pub open spec fn default_url_spec() -> Seq<char> {
    "https://libretranslate.com/"@
}

/// The base URL of the well-known public translation service.
pub fn default_url() -> (r: &'static str)
    ensures
        r@ == default_url_spec(),
{
    "https://libretranslate.com/"
}

/// The input length (in characters) at and above which a request is rejected.
pub open spec fn length_limit() -> int {
    5000
}

/// What a prepared request holds for the given arguments once the source
/// language has been resolved to `resolved`: the normalized endpoint, the
/// serialized payload, and the languages and input echoed for the result.
pub open spec fn prepared_spec(
    req: PreparedRequest,
    target: Language,
    input: Seq<char>,
    url: Seq<char>,
    key: Option<Seq<char>>,
    resolved: Language,
) -> bool {
    &&& req.url@ == normalized_url(url)
    &&& req.body@ == request_body_spec(input, code_spec(resolved), code_spec(target), key)
    &&& req.source == resolved
    &&& req.target == target
    &&& req.input@ == input
}

/// The view of an optional key.
pub open spec fn key_view(key: Option<&str>) -> Option<Seq<char>> {
    match key {
        Some(k) => Some(k@),
        None => None,
    }
}

/// Validate and prepare a translation request, without touching the network:
/// an input at or over the length limit is rejected with a `LengthError`
/// before anything else; a `Detect` source is resolved by the detector, whose
/// `DetectError` propagates unchanged; otherwise the request carries the
/// normalized URL and the serialized payload, and its source is never the
/// detection sentinel.
pub fn begin_translation(
    source: Language,
    target: Language,
    input: &str,
    url: &str,
    key: Option<&str>,
) -> (r: Result<PreparedRequest, TranslateError>)
    ensures
        input@.len() >= length_limit() <==> r == Err::<PreparedRequest, TranslateError>(
            TranslateError::LengthError,
        ),
        input@.len() < length_limit() && source != Language::Detect ==> (r matches Ok(req)
            && prepared_spec(req, target, input@, url@, key_view(key), source)),
        input@.len() < length_limit() && source == Language::Detect ==> match detect_spec(input@) {
            Ok(l) => r matches Ok(req) && prepared_spec(req, target, input@, url@, key_view(key), l),
            Err(e) => r == Err::<PreparedRequest, TranslateError>(e),
        },
        r matches Ok(req) ==> req.source != Language::Detect,
{
    if input.unicode_len() >= 5000 {
        return Err(TranslateError::LengthError);
    }
    let resolved = match source {
        Language::Detect => match detect(input) {
            Ok(l) => l,
            Err(e) => {
                return Err(e);
            },
        },
        _ => source,
    };
    let complete_url = normalize_url(url);
    let body = request_body(input, resolved.as_code(), target.as_code(), key);
    Ok(
        PreparedRequest {
            url: complete_url,
            body,
            source: resolved,
            target,
            input: input.to_owned(),
        },
    )
}

/// Turn the transport's outcome for a prepared request into the typed result:
/// a transport failure's description becomes an `HttpError`, and a received
/// body is interpreted as the service's JSON response — its `translatedText`
/// string becomes the output of a `Translation` echoing the request's
/// endpoint, languages and input, unless the body is not JSON or the service
/// reported an `error` string, both a `ParseError`.
pub fn complete_translation(req: PreparedRequest, outcome: Result<String, String>) -> (r: Result<
    Translation,
    TranslateError,
>)
    ensures
        outcome matches Err(d) ==> (r matches Err(e) && (e matches TranslateError::HttpError(m)
            && m@ == d@)),
        r matches Err(e) ==> (e is HttpError <==> outcome is Err),
        outcome matches Ok(b) ==> match parse_error_of(b@) {
            Some(m) => r matches Err(e) && e.is_parse_error_with(m),
            None => match error_field_of(b@) {
                Some(m) => r matches Err(e) && e.is_parse_error_with(m),
                None => match translated_of(b@) {
                    Some(out) => r matches Ok(t) && t.output@ == out && t.url@ == req.url@
                        && t.source == req.source && t.target == req.target && t.input@
                        == req.input@,
                    None => r matches Err(e) && e.is_parse_error_with(missing_output_message()),
                },
            },
        },
        r matches Ok(t) ==> t.source == req.source,
{
    let body = match outcome {
        Ok(b) => b,
        Err(d) => {
            return Err(TranslateError::HttpError(d));
        },
    };
    let output = match response_output(body.as_str()) {
        Ok(o) => o,
        Err(e) => {
            return Err(e);
        },
    };
    Ok(
        Translation {
            url: req.url,
            source: req.source,
            target: req.target,
            input: req.input,
            output,
        },
    )
}

/// What a terminal `translate` call decides before any transport is involved:
/// either the translation is already complete (an empty input short-circuits
/// with an empty output), or a prepared request remains to be posted.
pub enum TranslateStep {
    Done(Translation),
    Send(PreparedRequest),
}

} // verus!
