//! A fluent builder for translation requests: each setter consumes and
//! returns the builder, and the terminal step validates and prepares the
//! request — or completes immediately on empty input, with no request at all.

use vstd::prelude::*;

use crate::Translation;
use crate::TranslateStep;
use crate::begin_translation;
use crate::default_url;
use crate::default_url_spec;
use crate::detect::detect_spec;
use crate::error::TranslateError;
use crate::languages::Language;
use crate::length_limit;
use crate::prepared_spec;
use crate::text::str_eq;

verus! {

/// Build translations more verbosely.
#[derive(Debug, Clone, Hash)]
pub struct TranslationBuilder {
    /// The base URL of the endpoint.
    pub url: String,
    /// The source language; defaults to the detection sentinel.
    pub source: Language,
    /// The target language; defaults to English.
    pub target: Language,
    /// The text to translate.
    pub input: String,
    /// The API key sent with the request, if any.
    pub key: Option<String>,
}

impl TranslationBuilder {
    /// The view of the API key that will accompany the request.
    pub open spec fn key_spec(&self) -> Option<Seq<char>> {
        match self.key {
            Some(k) => Some(k@),
            None => None,
        }
    }

    /// A builder with the well-known public endpoint, a detected source,
    /// English as the target, empty input and no API key.
    pub fn new() -> (r: Self)
        ensures
            r.url@ == default_url_spec(),
            r.source == Language::Detect,
            r.target == Language::English,
            r.input@ == Seq::<char>::empty(),
            r.key_spec() is None,
    {
        TranslationBuilder {
            url: String::from_str(default_url()),
            source: Language::Detect,
            target: Language::English,
            input: String::new(),
            key: None,
        }
    }

    /// Set the base URL of the endpoint.
    pub fn url(self, url: &str) -> (r: Self)
        ensures
            r.url@ == url@,
            r.source == self.source,
            r.target == self.target,
            r.input@ == self.input@,
            r.key_spec() == self.key_spec(),
    {
        TranslationBuilder { url: String::from_str(url), ..self }
    }

    /// Set the source language.
    pub fn from_lang(self, lang: Language) -> (r: Self)
        ensures
            r.url@ == self.url@,
            r.source == lang,
            r.target == self.target,
            r.input@ == self.input@,
            r.key_spec() == self.key_spec(),
    {
        TranslationBuilder { source: lang, ..self }
    }

    /// Set the target language.
    pub fn to_lang(self, lang: Language) -> (r: Self)
        ensures
            r.url@ == self.url@,
            r.source == self.source,
            r.target == lang,
            r.input@ == self.input@,
            r.key_spec() == self.key_spec(),
    {
        TranslationBuilder { target: lang, ..self }
    }

    /// Set the text to translate.
    pub fn text(self, text: &str) -> (r: Self)
        ensures
            r.url@ == self.url@,
            r.source == self.source,
            r.target == self.target,
            r.input@ == text@,
            r.key_spec() == self.key_spec(),
    {
        TranslationBuilder { input: String::from_str(text), ..self }
    }

    /// Set the API key sent with the request.
    pub fn key(self, key: &str) -> (r: Self)
        ensures
            r.url@ == self.url@,
            r.source == self.source,
            r.target == self.target,
            r.input@ == self.input@,
            r.key_spec() == Some(key@),
    {
        TranslationBuilder { key: Some(String::from_str(key)), ..self }
    }

    /// The terminal step: an empty input completes at once with an empty
    /// output and no request to send; otherwise the request is validated and
    /// prepared exactly as [`begin_translation`](crate::begin_translation)
    /// states, with this builder's languages, input, URL and key.
    pub fn translate_step(self) -> (r: Result<TranslateStep, TranslateError>)
        ensures
            self.input@.len() == 0 ==> (r matches Ok(TranslateStep::Done(t)) && t.url@ == self.url@
                && t.source == self.source && t.target == self.target && t.input@ == self.input@
                && t.output@ == Seq::<char>::empty()),
            self.input@.len() >= length_limit() <==> r == Err::<TranslateStep, TranslateError>(
                TranslateError::LengthError,
            ),
            0 < self.input@.len() < length_limit() && self.source != Language::Detect ==> (
            r matches Ok(TranslateStep::Send(req)) && prepared_spec(
                req,
                self.target,
                self.input@,
                self.url@,
                self.key_spec(),
                self.source,
            )),
            0 < self.input@.len() < length_limit() && self.source == Language::Detect ==> match detect_spec(
                self.input@,
            ) {
                Ok(l) => r matches Ok(TranslateStep::Send(req)) && prepared_spec(
                    req,
                    self.target,
                    self.input@,
                    self.url@,
                    self.key_spec(),
                    l,
                ),
                Err(e) => r == Err::<TranslateStep, TranslateError>(e),
            },
    {
        if self.input.as_str().is_empty() {
            return Ok(
                TranslateStep::Done(
                    Translation {
                        url: self.url,
                        source: self.source,
                        target: self.target,
                        input: self.input,
                        output: String::new(),
                    },
                ),
            );
        }
        let key_ref: Option<&str> = match &self.key {
            Some(k) => Some(k.as_str()),
            None => None,
        };
        match begin_translation(
            self.source,
            self.target,
            self.input.as_str(),
            self.url.as_str(),
            key_ref,
        ) {
            Ok(req) => Ok(TranslateStep::Send(req)),
            Err(e) => Err(e),
        }
    }
}

impl PartialEq for TranslationBuilder {
    fn eq(&self, other: &TranslationBuilder) -> (r: bool) {
        let keys_eq = match (&self.key, &other.key) {
            (Some(a), Some(b)) => str_eq(a.as_str(), b.as_str()),
            (None, None) => true,
            _ => false,
        };
        keys_eq && str_eq(self.url.as_str(), other.url.as_str()) && self.source == other.source
            && self.target == other.target && str_eq(self.input.as_str(), other.input.as_str())
    }
}

impl vstd::std_specs::cmp::PartialEqSpecImpl for TranslationBuilder {
    open spec fn obeys_eq_spec() -> bool {
        true
    }

    open spec fn eq_spec(&self, other: &TranslationBuilder) -> bool {
        self.url@ == other.url@ && self.source == other.source && self.target == other.target
            && self.input@ == other.input@ && self.key_spec() == other.key_spec()
    }
}

impl Default for TranslationBuilder {
    /// The same builder as [`TranslationBuilder::new`].
    fn default() -> (r: Self)
        ensures
            r.url@ == default_url_spec(),
            r.source == Language::Detect,
            r.target == Language::English,
            r.input@ == Seq::<char>::empty(),
            r.key_spec() is None,
    {
        TranslationBuilder::new()
    }
}

} // verus!
