//! Typed errors for language parsing and for the translation pipeline.

use vstd::prelude::*;

use crate::text::str_eq;

verus! {

/// Errors that could be output by a [`Language`](crate::languages::Language).
#[derive(Debug, Clone, Hash)]
pub enum LanguageError {
    /// The text did not match any known language code or name; carries the
    /// original text.
    FormatError(String),
}

impl LanguageError {
    /// A human-readable description of the error.
    pub fn message(&self) -> (r: String)
        ensures
            self matches LanguageError::FormatError(t) ==> r@ == "Unknown Language: "@ + t@,
    {
        match self {
            LanguageError::FormatError(error) => {
                let m = String::from_str("Unknown Language: ");
                m.concat(error.as_str())
            },
        }
    }
}

impl PartialEq for LanguageError {
    fn eq(&self, other: &LanguageError) -> (r: bool) {
        match (self, other) {
            (LanguageError::FormatError(a), LanguageError::FormatError(b)) => str_eq(
                a.as_str(),
                b.as_str(),
            ),
        }
    }
}

impl vstd::std_specs::cmp::PartialEqSpecImpl for LanguageError {
    open spec fn obeys_eq_spec() -> bool {
        true
    }

    open spec fn eq_spec(&self, other: &LanguageError) -> bool {
        match (self, other) {
            (LanguageError::FormatError(a), LanguageError::FormatError(b)) => a@ == b@,
        }
    }
}

/// Errors that could be output by the translation pipeline.
#[derive(Debug, Clone, Hash)]
pub enum TranslateError {
    /// Transport-level failure reaching the endpoint; carries a description.
    HttpError(String),
    /// The response was not valid JSON, lacked `translatedText`, or carried a
    /// service-reported `error` field; carries a description.
    ParseError(String),
    /// Detection produced no result, or one outside the translatable
    /// allow-list.
    DetectError,
    /// The input text was at or above the length threshold.
    LengthError,
}

impl TranslateError {
    /// A human-readable description of the error.
    pub fn message(&self) -> (r: String)
        ensures
            self matches TranslateError::HttpError(t) ==> r@ == "HTTP request error: "@ + t@,
            self matches TranslateError::ParseError(t) ==> r@ == "JSON parsing error: "@ + t@,
            self is DetectError ==> r@ == "Language detection error"@,
            self is LengthError ==> r@ == "Requested text is too long"@,
    {
        match self {
            TranslateError::HttpError(error) => {
                let m = String::from_str("HTTP request error: ");
                m.concat(error.as_str())
            },
            TranslateError::ParseError(error) => {
                let m = String::from_str("JSON parsing error: ");
                m.concat(error.as_str())
            },
            TranslateError::DetectError => String::from_str("Language detection error"),
            TranslateError::LengthError => String::from_str("Requested text is too long"),
        }
    }
}

impl PartialEq for TranslateError {
    fn eq(&self, other: &TranslateError) -> (r: bool) {
        match (self, other) {
            (TranslateError::HttpError(a), TranslateError::HttpError(b)) => str_eq(
                a.as_str(),
                b.as_str(),
            ),
            (TranslateError::ParseError(a), TranslateError::ParseError(b)) => str_eq(
                a.as_str(),
                b.as_str(),
            ),
            (TranslateError::DetectError, TranslateError::DetectError) => true,
            (TranslateError::LengthError, TranslateError::LengthError) => true,
            _ => false,
        }
    }
}

impl vstd::std_specs::cmp::PartialEqSpecImpl for TranslateError {
    open spec fn obeys_eq_spec() -> bool {
        true
    }

    open spec fn eq_spec(&self, other: &TranslateError) -> bool {
        match (self, other) {
            (TranslateError::HttpError(a), TranslateError::HttpError(b)) => a@ == b@,
            (TranslateError::ParseError(a), TranslateError::ParseError(b)) => a@ == b@,
            (TranslateError::DetectError, TranslateError::DetectError) => true,
            (TranslateError::LengthError, TranslateError::LengthError) => true,
            _ => false,
        }
    }
}

} // verus!
