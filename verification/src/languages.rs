//! The closed set of supported languages, with their two-letter codes and
//! English display names, and a case-insensitive parser from either form.

use vstd::prelude::*;

use crate::error::LanguageError;
use crate::text::eq_lower;
use crate::text::lower_seq;
use crate::text::str_eq;

verus! {

/// Languages that can be used for input and output of a translation.
#[derive(Debug, Clone, PartialEq, Eq, Structural, Copy, Hash)]
pub enum Language {
    Detect,
    English,
    Arabic,
    Chinese,
    French,
    German,
    Italian,
    Japanese,
    Portuguese,
    Russian,
    Spanish,
}

/// The two-letter code of each language; `Detect` stands for the sentinel
/// code `auto`.
pub open spec fn code_spec(l: Language) -> Seq<char> {
    match l {
        Language::Detect => "auto"@,
        Language::English => "en"@,
        Language::Arabic => "ar"@,
        Language::Chinese => "zh"@,
        Language::French => "fr"@,
        Language::German => "de"@,
        Language::Italian => "it"@,
        Language::Japanese => "ja"@,
        Language::Portuguese => "pt"@,
        Language::Russian => "ru"@,
        Language::Spanish => "es"@,
    }
}

/// The English display name of each language.
pub open spec fn pretty_spec(l: Language) -> Seq<char> {
    match l {
        Language::Detect => "Detected"@,
        Language::English => "English"@,
        Language::Arabic => "Arabic"@,
        Language::Chinese => "Chinese"@,
        Language::French => "French"@,
        Language::German => "German"@,
        Language::Italian => "Italian"@,
        Language::Japanese => "Japanese"@,
        Language::Portuguese => "Portuguese"@,
        Language::Russian => "Russian"@,
        Language::Spanish => "Spanish"@,
    }
}

/// The language, if any, whose code or lowercased name equals the given
/// (already lowercased) text; `auto` gives the detection sentinel.
pub open spec fn lang_of_lower(t: Seq<char>) -> Option<Language> {
    if t == "en"@ {
        Some(Language::English)
    } else if t == "ar"@ {
        Some(Language::Arabic)
    } else if t == "zh"@ {
        Some(Language::Chinese)
    } else if t == "fr"@ {
        Some(Language::French)
    } else if t == "de"@ {
        Some(Language::German)
    } else if t == "it"@ {
        Some(Language::Italian)
    } else if t == "pt"@ {
        Some(Language::Portuguese)
    } else if t == "ru"@ {
        Some(Language::Russian)
    } else if t == "es"@ {
        Some(Language::Spanish)
    } else if t == "ja"@ {
        Some(Language::Japanese)
    } else if t == "english"@ {
        Some(Language::English)
    } else if t == "arabic"@ {
        Some(Language::Arabic)
    } else if t == "chinese"@ {
        Some(Language::Chinese)
    } else if t == "french"@ {
        Some(Language::French)
    } else if t == "german"@ {
        Some(Language::German)
    } else if t == "italian"@ {
        Some(Language::Italian)
    } else if t == "portuguese"@ {
        Some(Language::Portuguese)
    } else if t == "russian"@ {
        Some(Language::Russian)
    } else if t == "spanish"@ {
        Some(Language::Spanish)
    } else if t == "japanese"@ {
        Some(Language::Japanese)
    } else if t == "auto"@ {
        Some(Language::Detect)
    } else {
        None
    }
}

impl Language {
    /// Return the language's code. (ex. "ar", "de")
    pub fn as_code(&self) -> (r: &'static str)
        ensures
            r@ == code_spec(*self),
    {
        match self {
            Language::Detect => "auto",
            Language::English => "en",
            Language::Arabic => "ar",
            Language::Chinese => "zh",
            Language::French => "fr",
            Language::German => "de",
            Language::Italian => "it",
            Language::Japanese => "ja",
            Language::Portuguese => "pt",
            Language::Russian => "ru",
            Language::Spanish => "es",
        }
    }

    /// Return the language's full English name. (ex. "Arabic", "German")
    pub fn as_pretty(&self) -> (r: &'static str)
        ensures
            r@ == pretty_spec(*self),
    {
        match self {
            Language::Detect => "Detected",
            Language::English => "English",
            Language::Arabic => "Arabic",
            Language::Chinese => "Chinese",
            Language::French => "French",
            Language::German => "German",
            Language::Italian => "Italian",
            Language::Japanese => "Japanese",
            Language::Portuguese => "Portuguese",
            Language::Russian => "Russian",
            Language::Spanish => "Spanish",
        }
    }

    /// Create a Language from text like "en" or "French". Case doesn't matter.
    pub fn from(s: &str) -> (r: Result<Language, LanguageError>)
        ensures
            match lang_of_lower(lower_seq(s@)) {
                Some(l) => r == Ok::<Language, LanguageError>(l),
                None => r matches Err(LanguageError::FormatError(t)) && t@ == s@,
            },
    {
        if eq_lower(s, "en") {
            Ok(Language::English)
        } else if eq_lower(s, "ar") {
            Ok(Language::Arabic)
        } else if eq_lower(s, "zh") {
            Ok(Language::Chinese)
        } else if eq_lower(s, "fr") {
            Ok(Language::French)
        } else if eq_lower(s, "de") {
            Ok(Language::German)
        } else if eq_lower(s, "it") {
            Ok(Language::Italian)
        } else if eq_lower(s, "pt") {
            Ok(Language::Portuguese)
        } else if eq_lower(s, "ru") {
            Ok(Language::Russian)
        } else if eq_lower(s, "es") {
            Ok(Language::Spanish)
        } else if eq_lower(s, "ja") {
            Ok(Language::Japanese)
        } else if eq_lower(s, "english") {
            Ok(Language::English)
        } else if eq_lower(s, "arabic") {
            Ok(Language::Arabic)
        } else if eq_lower(s, "chinese") {
            Ok(Language::Chinese)
        } else if eq_lower(s, "french") {
            Ok(Language::French)
        } else if eq_lower(s, "german") {
            Ok(Language::German)
        } else if eq_lower(s, "italian") {
            Ok(Language::Italian)
        } else if eq_lower(s, "portuguese") {
            Ok(Language::Portuguese)
        } else if eq_lower(s, "russian") {
            Ok(Language::Russian)
        } else if eq_lower(s, "spanish") {
            Ok(Language::Spanish)
        } else if eq_lower(s, "japanese") {
            Ok(Language::Japanese)
        } else if eq_lower(s, "auto") {
            Ok(Language::Detect)
        } else {
            Err(LanguageError::FormatError(s.to_owned()))
        }
    }
}

/// Law: parsing is a left inverse of both string projections, whatever the
/// case of the input. For every language, lowercasing its code and parsing
/// gives it back; for every translatable language (the detection sentinel's
/// display name "Detected" is not a recognized spelling, though its code
/// "auto" is), the same holds for its display name.
#[verifier::rlimit(50)]
pub proof fn lemma_parse_round_trip(l: Language)
    ensures
        lang_of_lower(lower_seq(code_spec(l))) == Some(l),
        l != Language::Detect ==> lang_of_lower(lower_seq(pretty_spec(l))) == Some(l),
{
    reveal_strlit("en");
    reveal_strlit("ar");
    reveal_strlit("zh");
    reveal_strlit("fr");
    reveal_strlit("de");
    reveal_strlit("it");
    reveal_strlit("pt");
    reveal_strlit("ru");
    reveal_strlit("es");
    reveal_strlit("ja");
    reveal_strlit("english");
    reveal_strlit("arabic");
    reveal_strlit("chinese");
    reveal_strlit("french");
    reveal_strlit("german");
    reveal_strlit("italian");
    reveal_strlit("portuguese");
    reveal_strlit("russian");
    reveal_strlit("spanish");
    reveal_strlit("japanese");
    reveal_strlit("auto");
    reveal_strlit("English");
    reveal_strlit("Arabic");
    reveal_strlit("Chinese");
    reveal_strlit("French");
    reveal_strlit("German");
    reveal_strlit("Italian");
    reveal_strlit("Portuguese");
    reveal_strlit("Russian");
    reveal_strlit("Spanish");
    reveal_strlit("Japanese");
    reveal_strlit("Detected");
    assert(("en"@).len() == 2 && ("en"@)[0] == 'e' && ("en"@)[1] == 'n');
    assert(("ar"@).len() == 2 && ("ar"@)[0] == 'a' && ("ar"@)[1] == 'r');
    assert(("zh"@).len() == 2 && ("zh"@)[0] == 'z' && ("zh"@)[1] == 'h');
    assert(("fr"@).len() == 2 && ("fr"@)[0] == 'f' && ("fr"@)[1] == 'r');
    assert(("de"@).len() == 2 && ("de"@)[0] == 'd' && ("de"@)[1] == 'e');
    assert(("it"@).len() == 2 && ("it"@)[0] == 'i' && ("it"@)[1] == 't');
    assert(("pt"@).len() == 2 && ("pt"@)[0] == 'p' && ("pt"@)[1] == 't');
    assert(("ru"@).len() == 2 && ("ru"@)[0] == 'r' && ("ru"@)[1] == 'u');
    assert(("es"@).len() == 2 && ("es"@)[0] == 'e' && ("es"@)[1] == 's');
    assert(("ja"@).len() == 2 && ("ja"@)[0] == 'j' && ("ja"@)[1] == 'a');
    assert(("english"@).len() == 7 && ("english"@)[0] == 'e' && ("english"@)[1] == 'n');
    assert(("arabic"@).len() == 6 && ("arabic"@)[0] == 'a' && ("arabic"@)[1] == 'r');
    assert(("chinese"@).len() == 7 && ("chinese"@)[0] == 'c' && ("chinese"@)[1] == 'h');
    assert(("french"@).len() == 6 && ("french"@)[0] == 'f' && ("french"@)[1] == 'r');
    assert(("german"@).len() == 6 && ("german"@)[0] == 'g' && ("german"@)[1] == 'e');
    assert(("italian"@).len() == 7 && ("italian"@)[0] == 'i' && ("italian"@)[1] == 't');
    assert(("portuguese"@).len() == 10 && ("portuguese"@)[0] == 'p' && ("portuguese"@)[1] == 'o');
    assert(("russian"@).len() == 7 && ("russian"@)[0] == 'r' && ("russian"@)[1] == 'u');
    assert(("spanish"@).len() == 7 && ("spanish"@)[0] == 's' && ("spanish"@)[1] == 'p');
    assert(("japanese"@).len() == 8 && ("japanese"@)[0] == 'j' && ("japanese"@)[1] == 'a');
    assert(("auto"@).len() == 4 && ("auto"@)[0] == 'a' && ("auto"@)[1] == 'u');
    match l {
        Language::Detect => {
            assert(lower_seq(code_spec(l)) =~= "auto"@);
        },
        Language::English => {
            assert(lower_seq(code_spec(l)) =~= "en"@);
            assert(lower_seq(pretty_spec(l)) =~= "english"@);
        },
        Language::Arabic => {
            assert(lower_seq(code_spec(l)) =~= "ar"@);
            assert(lower_seq(pretty_spec(l)) =~= "arabic"@);
        },
        Language::Chinese => {
            assert(lower_seq(code_spec(l)) =~= "zh"@);
            assert(lower_seq(pretty_spec(l)) =~= "chinese"@);
        },
        Language::French => {
            assert(lower_seq(code_spec(l)) =~= "fr"@);
            assert(lower_seq(pretty_spec(l)) =~= "french"@);
        },
        Language::German => {
            assert(lower_seq(code_spec(l)) =~= "de"@);
            assert(lower_seq(pretty_spec(l)) =~= "german"@);
        },
        Language::Italian => {
            assert(lower_seq(code_spec(l)) =~= "it"@);
            assert(lower_seq(pretty_spec(l)) =~= "italian"@);
        },
        Language::Japanese => {
            assert(lower_seq(code_spec(l)) =~= "ja"@);
            assert(lower_seq(pretty_spec(l)) =~= "japanese"@);
        },
        Language::Portuguese => {
            assert(lower_seq(code_spec(l)) =~= "pt"@);
            assert(lower_seq(pretty_spec(l)) =~= "portuguese"@);
        },
        Language::Russian => {
            assert(lower_seq(code_spec(l)) =~= "ru"@);
            assert(lower_seq(pretty_spec(l)) =~= "russian"@);
        },
        Language::Spanish => {
            assert(lower_seq(code_spec(l)) =~= "es"@);
            assert(lower_seq(pretty_spec(l)) =~= "spanish"@);
        },
    }
}

/// The language, if any, whose two-letter code equals the given primary
/// language subtag exactly; the sentinel `auto` is not a subtag.
pub open spec fn lang_of_subtag(t: Seq<char>) -> Option<Language> {
    if t == "en"@ {
        Some(Language::English)
    } else if t == "ar"@ {
        Some(Language::Arabic)
    } else if t == "zh"@ {
        Some(Language::Chinese)
    } else if t == "fr"@ {
        Some(Language::French)
    } else if t == "de"@ {
        Some(Language::German)
    } else if t == "it"@ {
        Some(Language::Italian)
    } else if t == "pt"@ {
        Some(Language::Portuguese)
    } else if t == "ru"@ {
        Some(Language::Russian)
    } else if t == "es"@ {
        Some(Language::Spanish)
    } else if t == "ja"@ {
        Some(Language::Japanese)
    } else {
        None
    }
}

/// The language whose code equals the given primary language subtag, or a
/// `FormatError` when no translatable language carries that code.
pub fn lang_from_subtag(code: &str) -> (r: Result<Language, LanguageError>)
    ensures
        match lang_of_subtag(code@) {
            Some(l) => r == Ok::<Language, LanguageError>(l),
            None => r matches Err(LanguageError::FormatError(t)) && t@ == "Unknown Language"@,
        },
{
    if str_eq(code, "en") {
        Ok(Language::English)
    } else if str_eq(code, "ar") {
        Ok(Language::Arabic)
    } else if str_eq(code, "zh") {
        Ok(Language::Chinese)
    } else if str_eq(code, "fr") {
        Ok(Language::French)
    } else if str_eq(code, "de") {
        Ok(Language::German)
    } else if str_eq(code, "it") {
        Ok(Language::Italian)
    } else if str_eq(code, "pt") {
        Ok(Language::Portuguese)
    } else if str_eq(code, "ru") {
        Ok(Language::Russian)
    } else if str_eq(code, "es") {
        Ok(Language::Spanish)
    } else if str_eq(code, "ja") {
        Ok(Language::Japanese)
    } else {
        Err(LanguageError::FormatError(String::from_str("Unknown Language")))
    }
}

#[verifier::external_type_specification]
#[verifier::external_body]
pub struct ExLanguageIdentifier(unic_langid::LanguageIdentifier);

/// Relies on `unic_langid::LanguageIdentifier`: `language` is its primary
/// language subtag, whose `as_str` returns the canonicalized (lowercase
/// ASCII) form, or "und" when the subtag is empty.
#[verifier::external_body]
fn langid_subtag(id: &unic_langid::LanguageIdentifier) -> (r: String) {
    id.language.as_str().to_string()
}

impl Language {
    /// Create a Language from a [`LanguageIdentifier`](unic_langid::LanguageIdentifier).
    pub fn from_unic_langid(s: unic_langid::LanguageIdentifier) -> (r: Result<
        Language,
        LanguageError,
    >)
        ensures
            r is Ok ==> r->Ok_0 != Language::Detect,
            r is Err ==> (r->Err_0 matches LanguageError::FormatError(t) && t@
                == "Unknown Language"@),
    {
        let code = langid_subtag(&s);
        lang_from_subtag(code.as_str())
    }
}

impl core::str::FromStr for Language {
    type Err = LanguageError;

    fn from_str(s: &str) -> Result<Language, LanguageError> {
        Language::from(s)
    }
}

impl Default for Language {
    /// The default target language.
    fn default() -> (r: Self)
        ensures
            r == Language::English,
    {
        Language::English
    }
}

} // verus!
