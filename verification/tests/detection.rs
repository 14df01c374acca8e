use libretranslate::Language;
use libretranslate::TranslateError;
use libretranslate::detect;
use libretranslate::detect::lang_from_alpha3;

#[test]
fn detects_french() {
    let text = "Le français est une langue indo-européenne de la famille des langues romanes.";
    assert_eq!(detect(text).unwrap(), Language::French);
}

#[test]
fn detects_english() {
    let text = "There is no reason not to learn a second language if you have the time.";
    assert_eq!(detect(text).unwrap(), Language::English);
}

#[test]
fn non_allow_listed_language_is_an_error_not_a_fallback() {
    // The underlying identifier knows Korean, but Korean is outside the
    // translatable allow-list: detection must fail, not fall back.
    let text = "안녕하세요. 오늘 날씨가 정말 좋네요. 내일 다시 만나요.";
    assert!(matches!(detect(text), Err(TranslateError::DetectError)));
}

#[test]
fn allow_list_mapping_is_exact() {
    assert_eq!(lang_from_alpha3("eng").unwrap(), Language::English);
    assert_eq!(lang_from_alpha3("ara").unwrap(), Language::Arabic);
    assert_eq!(lang_from_alpha3("cmn").unwrap(), Language::Chinese);
    assert_eq!(lang_from_alpha3("fra").unwrap(), Language::French);
    assert_eq!(lang_from_alpha3("deu").unwrap(), Language::German);
    assert_eq!(lang_from_alpha3("ita").unwrap(), Language::Italian);
    assert_eq!(lang_from_alpha3("jpn").unwrap(), Language::Japanese);
    assert_eq!(lang_from_alpha3("por").unwrap(), Language::Portuguese);
    assert_eq!(lang_from_alpha3("rus").unwrap(), Language::Russian);
    assert_eq!(lang_from_alpha3("spa").unwrap(), Language::Spanish);
    assert!(matches!(lang_from_alpha3("ukr"), Err(TranslateError::DetectError)));
    assert!(matches!(lang_from_alpha3("kor"), Err(TranslateError::DetectError)));
    assert!(matches!(lang_from_alpha3("auto"), Err(TranslateError::DetectError)));
    assert!(matches!(lang_from_alpha3(""), Err(TranslateError::DetectError)));
}
