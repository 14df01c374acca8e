//! Language detection: a statistical identifier supplies a code, and only
//! codes of the ten translatable languages are accepted — anything else is a
//! `DetectError`, never a fallback language.

use vstd::prelude::*;

use crate::error::TranslateError;
use crate::languages::Language;
use crate::text::str_eq;

verus! {

/// The ISO 639-3 code the statistical identifier assigns to a text, if any;
/// a function of the text alone.
pub uninterp spec fn detected_code_of(s: Seq<char>) -> Option<Seq<char>>;

/// Relies on `whatlang::detect_lang`: statistical language identification
/// whose result depends on the text alone; `Lang::code` gives the identified
/// language's ISO 639-3 code.
#[verifier::external_body]
fn detect_code(text: &str) -> (r: Option<String>)
    ensures
        match detected_code_of(text@) {
            Some(c) => r matches Some(s) && s@ == c,
            None => r is None,
        },
{
    whatlang::detect_lang(text).map(|l| l.code().to_string())
}

/// The translatable language carrying the given ISO 639-3 code, if any: the
/// allow-list of the detector. The detection sentinel has no such code.
pub open spec fn lang_of_alpha3(t: Seq<char>) -> Option<Language> {
    if t == "eng"@ {
        Some(Language::English)
    } else if t == "ara"@ {
        Some(Language::Arabic)
    } else if t == "cmn"@ {
        Some(Language::Chinese)
    } else if t == "fra"@ {
        Some(Language::French)
    } else if t == "deu"@ {
        Some(Language::German)
    } else if t == "ita"@ {
        Some(Language::Italian)
    } else if t == "jpn"@ {
        Some(Language::Japanese)
    } else if t == "por"@ {
        Some(Language::Portuguese)
    } else if t == "rus"@ {
        Some(Language::Russian)
    } else if t == "spa"@ {
        Some(Language::Spanish)
    } else {
        None
    }
}

/// What detection yields for a text: the allow-listed language carrying the
/// identifier's code, and a `DetectError` when the identifier found nothing
/// or named a language outside the allow-list.
pub open spec fn detect_spec(t: Seq<char>) -> Result<Language, TranslateError> {
    match detected_code_of(t) {
        Some(c) => match lang_of_alpha3(c) {
            Some(l) => Ok(l),
            None => Err(TranslateError::DetectError),
        },
        None => Err(TranslateError::DetectError),
    }
}

/// Map an ISO 639-3 code to the translatable language carrying it, or a
/// `DetectError` for a code outside the allow-list.
pub fn lang_from_alpha3(code: &str) -> (r: Result<Language, TranslateError>)
    ensures
        match lang_of_alpha3(code@) {
            Some(l) => r == Ok::<Language, TranslateError>(l),
            None => r == Err::<Language, TranslateError>(TranslateError::DetectError),
        },
{
    if str_eq(code, "eng") {
        Ok(Language::English)
    } else if str_eq(code, "ara") {
        Ok(Language::Arabic)
    } else if str_eq(code, "cmn") {
        Ok(Language::Chinese)
    } else if str_eq(code, "fra") {
        Ok(Language::French)
    } else if str_eq(code, "deu") {
        Ok(Language::German)
    } else if str_eq(code, "ita") {
        Ok(Language::Italian)
    } else if str_eq(code, "jpn") {
        Ok(Language::Japanese)
    } else if str_eq(code, "por") {
        Ok(Language::Portuguese)
    } else if str_eq(code, "rus") {
        Ok(Language::Russian)
    } else if str_eq(code, "spa") {
        Ok(Language::Spanish)
    } else {
        Err(TranslateError::DetectError)
    }
}

/// Detect the probable language of a text. Yields only languages of the
/// allow-list — never the detection sentinel and never a silent fallback —
/// and a `DetectError` otherwise.
pub fn detect(text: &str) -> (r: Result<Language, TranslateError>)
    ensures
        r == detect_spec(text@),
        r is Ok ==> r->Ok_0 != Language::Detect,
        r is Err ==> r->Err_0 is DetectError,
{
    match detect_code(text) {
        Some(code) => lang_from_alpha3(code.as_str()),
        None => Err(TranslateError::DetectError),
    }
}

} // verus!
