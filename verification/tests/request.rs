use libretranslate::Language;
use libretranslate::TranslateError;
use libretranslate::begin_translation;
use libretranslate::request::normalize_url;
use libretranslate::request::request_body;

#[test]
fn url_normalization_handles_trailing_slash() {
    assert_eq!(normalize_url("https://x/"), "https://x/translate");
    assert_eq!(normalize_url("https://x"), "https://x/translate");
    assert_eq!(normalize_url("https://libretranslate.com/"), "https://libretranslate.com/translate");
    assert_eq!(normalize_url(""), "/translate");
}

#[test]
fn body_without_key() {
    let body = request_body("hello", "en", "de", None);
    assert_eq!(body, "{\"q\":\"hello\",\"source\":\"en\",\"target\":\"de\"}");
}

#[test]
fn body_with_key() {
    let body = request_body("hola", "auto", "en", Some("secret"));
    assert_eq!(body, "{\"q\":\"hola\",\"source\":\"auto\",\"target\":\"en\",\"api_key\":\"secret\"}");
}

#[test]
fn body_escapes_quotes_and_backslashes() {
    let body = request_body("a\"b\\c", "en", "de", None);
    assert_eq!(body, "{\"q\":\"a\\\"b\\\\c\",\"source\":\"en\",\"target\":\"de\"}");
}

#[test]
fn body_escapes_control_characters() {
    let body = request_body("a\nb\rc\td\u{1}e", "en", "de", None);
    assert_eq!(body, "{\"q\":\"a\\nb\\rc\\td\\u0001e\",\"source\":\"en\",\"target\":\"de\"}");
}

#[test]
fn body_round_trips_through_a_json_parser() {
    let body = request_body("sag \"hallo\"\n", "de", "en", Some("k\\1"));
    let v: serde_json::Value = serde_json::from_str(&body).unwrap();
    assert_eq!(v["q"], "sag \"hallo\"\n");
    assert_eq!(v["source"], "de");
    assert_eq!(v["target"], "en");
    assert_eq!(v["api_key"], "k\\1");
}

#[test]
fn oversized_input_is_rejected_before_any_network_use() {
    // An unreachable URL: the length guard must fire before anything could
    // try to contact it.
    let input: String = "x".repeat(5000);
    let r = begin_translation(
        Language::Detect,
        Language::English,
        &input,
        "http://127.0.0.1:1/",
        None,
    );
    assert!(matches!(r, Err(TranslateError::LengthError)));
}

#[test]
fn input_under_the_limit_is_accepted() {
    let input: String = "y".repeat(4999);
    let req = begin_translation(
        Language::German,
        Language::English,
        &input,
        "https://example.org",
        None,
    )
    .unwrap();
    assert_eq!(req.url, "https://example.org/translate");
    assert_eq!(req.source, Language::German);
    assert_eq!(req.target, Language::English);
    assert_eq!(req.input, input);
}

#[test]
fn prepared_request_carries_exact_payload() {
    let req = begin_translation(
        Language::French,
        Language::Spanish,
        "bonjour",
        "https://example.org/",
        Some("k"),
    )
    .unwrap();
    assert_eq!(req.url, "https://example.org/translate");
    assert_eq!(
        req.body,
        "{\"q\":\"bonjour\",\"source\":\"fr\",\"target\":\"es\",\"api_key\":\"k\"}"
    );
}

#[test]
fn detect_source_is_resolved_in_request() {
    let req = begin_translation(
        Language::Detect,
        Language::English,
        "Le français est une langue indo-européenne de la famille des langues romanes.",
        "https://example.org",
        None,
    )
    .unwrap();
    assert_eq!(req.source, Language::French);
    assert!(req.body.contains("\"source\":\"fr\""));
}
