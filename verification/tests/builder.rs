use libretranslate::Language;
use libretranslate::TranslateError;
use libretranslate::TranslateStep;
use libretranslate::TranslationBuilder;

#[test]
fn builder_defaults() {
    let b = TranslationBuilder::new();
    assert_eq!(b.url, "https://libretranslate.com/");
    assert_eq!(b.source, Language::Detect);
    assert_eq!(b.target, Language::English);
    assert_eq!(b.input, "");
    assert!(b.key.is_none());
    assert_eq!(TranslationBuilder::default(), TranslationBuilder::new());
}

#[test]
fn setters_affect_only_their_chain() {
    let base = TranslationBuilder::new();
    let configured = base
        .clone()
        .url("https://example.org/")
        .from_lang(Language::French)
        .to_lang(Language::German)
        .text("bonjour")
        .key("k");
    assert_eq!(configured.url, "https://example.org/");
    assert_eq!(configured.source, Language::French);
    assert_eq!(configured.target, Language::German);
    assert_eq!(configured.input, "bonjour");
    assert_eq!(configured.key, Some(String::from("k")));
    // The original chain is untouched.
    assert_eq!(base, TranslationBuilder::new());
    assert_ne!(base, configured);
}

#[test]
fn empty_input_completes_without_any_request() {
    // A URL guaranteed to fail if contacted: the empty input must
    // short-circuit before any request exists at all.
    let step = TranslationBuilder::new()
        .url("http://127.0.0.1:1/")
        .from_lang(Language::French)
        .to_lang(Language::German)
        .translate_step()
        .unwrap();
    match step {
        TranslateStep::Done(t) => {
            assert_eq!(t.output, "");
            assert_eq!(t.input, "");
            assert_eq!(t.url, "http://127.0.0.1:1/");
            assert_eq!(t.source, Language::French);
            assert_eq!(t.target, Language::German);
        },
        TranslateStep::Send(_) => panic!("an empty input must not produce a request"),
    }
}

#[test]
fn oversized_input_fails_in_the_builder() {
    let r = TranslationBuilder::new()
        .url("http://127.0.0.1:1/")
        .from_lang(Language::French)
        .text(&"x".repeat(5000))
        .translate_step();
    assert!(matches!(r, Err(TranslateError::LengthError)));
}

#[test]
fn builder_prepares_a_request() {
    let step = TranslationBuilder::new()
        .url("https://example.org")
        .from_lang(Language::English)
        .to_lang(Language::Spanish)
        .text("good morning")
        .key("secret")
        .translate_step()
        .unwrap();
    match step {
        TranslateStep::Send(req) => {
            assert_eq!(req.url, "https://example.org/translate");
            assert_eq!(req.source, Language::English);
            assert_eq!(req.target, Language::Spanish);
            assert_eq!(req.input, "good morning");
            assert_eq!(
                req.body,
                "{\"q\":\"good morning\",\"source\":\"en\",\"target\":\"es\",\"api_key\":\"secret\"}"
            );
        },
        TranslateStep::Done(_) => panic!("a non-empty input must produce a request"),
    }
}
