//! The convenience API on text values: any string can be made the subject of
//! a query by naming the target or source language, then translated.

use vstd::prelude::*;

use crate::Translation;
use crate::TranslateStep;
use crate::begin_translation;
use crate::default_url;
use crate::default_url_spec;
use crate::detect::detect_spec;
use crate::error::TranslateError;
use crate::languages::Language;
use crate::length_limit;
use crate::prepared_spec;

verus! {

/// A single-shot translation query created by [`Translate`].
pub struct Query {
    /// The base URL of the endpoint.
    pub url: String,
    /// The text to translate.
    pub text: String,
    /// The source language.
    pub source: Language,
    /// The target language.
    pub target: Language,
}

impl Query {
    /// Set the target language.
    pub fn to_lang(self, language: Language) -> (r: Query)
        ensures
            r.url@ == self.url@,
            r.text@ == self.text@,
            r.source == self.source,
            r.target == language,
    {
        Query { target: language, ..self }
    }

    /// Set the source language.
    pub fn from_lang(self, language: Language) -> (r: Query)
        ensures
            r.url@ == self.url@,
            r.text@ == self.text@,
            r.source == language,
            r.target == self.target,
    {
        Query { source: language, ..self }
    }

    /// Set the base URL of the endpoint.
    pub fn url(self, url: &str) -> (r: Query)
        ensures
            r.url@ == url@,
            r.text@ == self.text@,
            r.source == self.source,
            r.target == self.target,
    {
        Query { url: String::from_str(url), ..self }
    }

    /// The terminal step: an empty text completes at once with an empty
    /// output and no request to send; otherwise the request is validated and
    /// prepared exactly as [`begin_translation`](crate::begin_translation)
    /// states, with this query's languages, text and URL, and no API key.
    pub fn translate_step(self) -> (r: Result<TranslateStep, TranslateError>)
        ensures
            self.text@.len() == 0 ==> (r matches Ok(TranslateStep::Done(t)) && t.url@ == self.url@
                && t.source == self.source && t.target == self.target && t.input@ == self.text@
                && t.output@ == Seq::<char>::empty()),
            self.text@.len() >= length_limit() <==> r == Err::<TranslateStep, TranslateError>(
                TranslateError::LengthError,
            ),
            0 < self.text@.len() < length_limit() && self.source != Language::Detect ==> (
            r matches Ok(TranslateStep::Send(req)) && prepared_spec(
                req,
                self.target,
                self.text@,
                self.url@,
                None,
                self.source,
            )),
            0 < self.text@.len() < length_limit() && self.source == Language::Detect ==> match detect_spec(
                self.text@,
            ) {
                Ok(l) => r matches Ok(TranslateStep::Send(req)) && prepared_spec(
                    req,
                    self.target,
                    self.text@,
                    self.url@,
                    None,
                    l,
                ),
                Err(e) => r == Err::<TranslateStep, TranslateError>(e),
            },
    {
        if self.text.as_str().is_empty() {
            return Ok(
                TranslateStep::Done(
                    Translation {
                        url: self.url,
                        source: self.source,
                        target: self.target,
                        input: self.text,
                        output: String::new(),
                    },
                ),
            );
        }
        match begin_translation(
            self.source,
            self.target,
            self.text.as_str(),
            self.url.as_str(),
            None,
        ) {
            Ok(req) => Ok(TranslateStep::Send(req)),
            Err(e) => Err(e),
        }
    }
}

/// Translate text from a `String` or `str`: name the target or source
/// language to obtain a [`Query`] aimed at the well-known public endpoint.
pub trait Translate {
    /// The characters of the text to translate.
    spec fn text_view(&self) -> Seq<char>;

    /// A query translating this text into the given language, with the
    /// source left to be detected.
    fn to_lang(&self, language: Language) -> (q: Query)
        ensures
            q.url@ == default_url_spec(),
            q.text@ == self.text_view(),
            q.source == Language::Detect,
            q.target == language,
    ;

    /// A query translating this text from the given language into English.
    fn from_lang(&self, language: Language) -> (q: Query)
        ensures
            q.url@ == default_url_spec(),
            q.text@ == self.text_view(),
            q.source == language,
            q.target == Language::English,
    ;
}

impl Translate for str {
    open spec fn text_view(&self) -> Seq<char> {
        self@
    }

    fn to_lang(&self, language: Language) -> (q: Query) {
        Query {
            url: String::from_str(default_url()),
            text: String::from_str(self),
            source: Language::Detect,
            target: language,
        }
    }

    fn from_lang(&self, language: Language) -> (q: Query) {
        Query {
            url: String::from_str(default_url()),
            text: String::from_str(self),
            source: language,
            target: Language::English,
        }
    }
}

impl Translate for String {
    open spec fn text_view(&self) -> Seq<char> {
        self@
    }

    fn to_lang(&self, language: Language) -> (q: Query) {
        Query {
            url: String::from_str(default_url()),
            text: String::from_str(self.as_str()),
            source: Language::Detect,
            target: language,
        }
    }

    fn from_lang(&self, language: Language) -> (q: Query) {
        Query {
            url: String::from_str(default_url()),
            text: String::from_str(self.as_str()),
            source: language,
            target: Language::English,
        }
    }
}

} // verus!
