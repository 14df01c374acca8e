use libretranslate::Language;
use libretranslate::LanguageError;

#[test]
fn parse_accepts_every_code() {
    assert_eq!(Language::from("en").unwrap(), Language::English);
    assert_eq!(Language::from("ar").unwrap(), Language::Arabic);
    assert_eq!(Language::from("zh").unwrap(), Language::Chinese);
    assert_eq!(Language::from("fr").unwrap(), Language::French);
    assert_eq!(Language::from("de").unwrap(), Language::German);
    assert_eq!(Language::from("it").unwrap(), Language::Italian);
    assert_eq!(Language::from("pt").unwrap(), Language::Portuguese);
    assert_eq!(Language::from("ru").unwrap(), Language::Russian);
    assert_eq!(Language::from("es").unwrap(), Language::Spanish);
    assert_eq!(Language::from("ja").unwrap(), Language::Japanese);
    assert_eq!(Language::from("auto").unwrap(), Language::Detect);
}

#[test]
fn parse_accepts_every_name() {
    assert_eq!(Language::from("English").unwrap(), Language::English);
    assert_eq!(Language::from("Arabic").unwrap(), Language::Arabic);
    assert_eq!(Language::from("Chinese").unwrap(), Language::Chinese);
    assert_eq!(Language::from("French").unwrap(), Language::French);
    assert_eq!(Language::from("German").unwrap(), Language::German);
    assert_eq!(Language::from("Italian").unwrap(), Language::Italian);
    assert_eq!(Language::from("Portuguese").unwrap(), Language::Portuguese);
    assert_eq!(Language::from("Russian").unwrap(), Language::Russian);
    assert_eq!(Language::from("Spanish").unwrap(), Language::Spanish);
    assert_eq!(Language::from("Japanese").unwrap(), Language::Japanese);
}

#[test]
fn parse_ignores_case() {
    assert_eq!(Language::from("FRENCH").unwrap(), Language::French);
    assert_eq!(Language::from("fReNcH").unwrap(), Language::French);
    assert_eq!(Language::from("FR").unwrap(), Language::French);
    assert_eq!(Language::from("AUTO").unwrap(), Language::Detect);
    assert_eq!(Language::from("gErMaN").unwrap(), Language::German);
}

#[test]
fn parse_round_trips_projections() {
    let langs = [
        Language::English,
        Language::Arabic,
        Language::Chinese,
        Language::French,
        Language::German,
        Language::Italian,
        Language::Japanese,
        Language::Portuguese,
        Language::Russian,
        Language::Spanish,
    ];
    for lang in langs {
        assert_eq!(Language::from(lang.as_code()).unwrap(), lang);
        assert_eq!(Language::from(lang.as_pretty()).unwrap(), lang);
    }
    assert_eq!(Language::from(Language::Detect.as_code()).unwrap(), Language::Detect);
}

#[test]
fn parse_rejects_unknown_with_original_text() {
    match Language::from("klingon") {
        Err(LanguageError::FormatError(t)) => assert_eq!(t, "klingon"),
        other => panic!("expected a FormatError, got {:?}", other),
    }
    match Language::from("") {
        Err(LanguageError::FormatError(t)) => assert_eq!(t, ""),
        other => panic!("expected a FormatError, got {:?}", other),
    }
    match Language::from("Detected") {
        Err(LanguageError::FormatError(t)) => assert_eq!(t, "Detected"),
        other => panic!("expected a FormatError, got {:?}", other),
    }
}

#[test]
fn codes_and_names_are_fixed() {
    assert_eq!(Language::Detect.as_code(), "auto");
    assert_eq!(Language::English.as_code(), "en");
    assert_eq!(Language::Arabic.as_code(), "ar");
    assert_eq!(Language::Chinese.as_code(), "zh");
    assert_eq!(Language::French.as_code(), "fr");
    assert_eq!(Language::German.as_code(), "de");
    assert_eq!(Language::Italian.as_code(), "it");
    assert_eq!(Language::Japanese.as_code(), "ja");
    assert_eq!(Language::Portuguese.as_code(), "pt");
    assert_eq!(Language::Russian.as_code(), "ru");
    assert_eq!(Language::Spanish.as_code(), "es");
    assert_eq!(Language::Detect.as_pretty(), "Detected");
    assert_eq!(Language::English.as_pretty(), "English");
    assert_eq!(Language::German.as_pretty(), "German");
}

#[test]
fn parse_via_from_str_trait() {
    let lang = Language::English;
    let lang_parse = "english".parse::<Language>().unwrap();
    assert_eq!(lang, lang_parse);
    assert_eq!("en", lang.as_code());
    assert_eq!("English", lang.as_pretty());
    assert!("nope".parse::<Language>().is_err());
}

#[test]
fn default_language_is_english() {
    assert_eq!(Language::default(), Language::English);
}

#[test]
fn language_from_unic_langid() {
    let li: unic_langid::LanguageIdentifier = "fr-FR".parse().expect("Failed to parse.");
    assert_eq!(Language::from_unic_langid(li).unwrap(), Language::French);

    let en: unic_langid::LanguageIdentifier = "en-US".parse().expect("Failed to parse.");
    assert_eq!(Language::from_unic_langid(en).unwrap(), Language::English);

    let unknown: unic_langid::LanguageIdentifier = "xx".parse().expect("Failed to parse.");
    match Language::from_unic_langid(unknown) {
        Err(LanguageError::FormatError(t)) => assert_eq!(t, "Unknown Language"),
        other => panic!("expected a FormatError, got {:?}", other),
    }
}

#[test]
fn language_error_message() {
    let e = LanguageError::FormatError(String::from("klingon"));
    assert_eq!(e.message(), "Unknown Language: klingon");
}
