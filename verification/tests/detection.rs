use ltengine::args::Args;
use ltengine::detection::{
    create_detector, match_language, parse_detection_response, Detector, LlmDetector,
};
use ltengine::languages::{detect_lang, get_language_from_code, LangDetect, Language};
use ltengine::table::known_languages;

const TABLE: [Language; 5] = [
    Language { code: "en", name: "English", internal_code: "en" },
    Language { code: "fr", name: "French", internal_code: "fr" },
    Language { code: "pt-BR", name: "Portuguese (Brazil)", internal_code: "pb" },
    Language { code: "zh-Hans", name: "Chinese", internal_code: "zh" },
    Language { code: "zh-Hant", name: "Chinese (traditional)", internal_code: "zt" },
];

fn code(response: &str) -> Option<&'static str> {
    match_language(&TABLE, response).map(|l| l.code)
}

fn parsed(response: &str) -> Option<(&'static str, i32)> {
    parse_detection_response(&TABLE, response).map(|(l, c)| (l.code, c))
}

#[test]
fn languages_match_by_name_and_code() {
    assert_eq!(code("English"), Some("en"));
    assert_eq!(code("en"), Some("en"));
    assert_eq!(code("zh-Hans"), Some("zh-Hans"));
    assert_eq!(code("ZH-HANS"), Some("zh-Hans"));
    assert_eq!(code("zt"), Some("zh-Hant"));
    assert_eq!(code("Klingon"), None);
    assert_eq!(code(""), None);
    assert_eq!(code("English."), None);
}

#[test]
fn parenthetical_names_match() {
    assert_eq!(code("Portuguese (Brazil)"), Some("pt-BR"));
    assert_eq!(code("\"Portuguese (Brazil)\""), Some("pt-BR"));
    assert_eq!(code("Chinese (traditional)"), Some("zh-Hant"));
    assert_eq!(code("Chinese"), Some("zh-Hans"));
    assert_eq!(code("(portuguese (BRAZIL))"), Some("pt-BR"));
    assert_eq!(code("Portuguese (Brazil"), None);
    assert_eq!(code("Portuguese Brazil"), None);
}

#[test]
fn quotes_parentheses_and_case_do_not_matter() {
    assert_eq!(code("  \"French\" "), Some("fr"));
    assert_eq!(code("('fReNcH')"), Some("fr"));
    assert_eq!(code("\u{3000}( FRENCH )"), Some("fr"));
    let table = [Language { code: "nb", name: "Norsk bokm\u{E5}l", internal_code: "nb" }];
    for response in ["norsk bokm\u{E5}l", "'NORSK BOKM\u{E5}L'", "NORSK BOKM\u{C5}L"] {
        assert_eq!(match_language(&table, response).map(|l| l.code), Some("nb"));
    }
}

#[test]
fn responses_with_a_score() {
    assert_eq!(parsed("English 95"), Some(("en", 95)));
    assert_eq!(parsed("  French\n100 "), Some(("fr", 100)));
    assert_eq!(parsed("Portuguese   (Brazil) 7"), Some(("pt-BR", 7)));
    assert_eq!(parsed("English +42"), Some(("en", 42)));
    assert_eq!(parsed("English -0"), Some(("en", 0)));
    assert_eq!(parsed("English 007"), Some(("en", 7)));
    assert_eq!(parsed("English 00000000000000000000000000001"), Some(("en", 1)));
}

#[test]
fn responses_without_a_score() {
    assert_eq!(parsed("English"), Some(("en", 100)));
    assert_eq!(parsed(" (English) "), Some(("en", 100)));
    assert_eq!(parsed("English 101"), None);
    assert_eq!(parsed("English -1"), None);
    assert_eq!(parsed("English 99999999999999999999"), None);
    assert_eq!(parsed("English 95%"), None);
    assert_eq!(parsed("English +"), None);
    assert_eq!(parsed("42"), None);
    assert_eq!(parsed(""), None);
}

#[test]
fn expected_form_is_read_back() {
    for l in TABLE.iter() {
        for score in 0..=100 {
            let read = parse_detection_response(&TABLE, &format!("{} {}", l.name, score)).unwrap();
            assert_eq!((read.0.code, read.1), (l.code, score));
        }
    }
}

#[test]
fn unreadable_answers_are_left_to_the_other_detector() {
    let detector = LlmDetector::new(&TABLE);
    assert!(detector.read(None).is_none());
    assert!(detector.read(Some("I cannot tell")).is_none());
    let fallback = LangDetect { language: &TABLE[2], confidence: 33 };
    let detected = |answer| {
        let d = detector.detect(answer, fallback);
        (d.language.code, d.confidence)
    };
    assert_eq!(detected(None), ("pt-BR", 33));
    assert_eq!(detected(Some("I cannot tell")), ("pt-BR", 33));
    assert_eq!(detected(Some("french 12")), ("fr", 12));
}

#[test]
fn statistical_detections() {
    let detected = |found| detect_lang(&TABLE, found).map(|d| (d.language.code, d.confidence));
    assert_eq!(detected(Some(("fra", 81))), Some(("fr", 81)));
    assert_eq!(detected(Some(("cmn", 9))), Some(("zh-Hans", 9)));
    assert_eq!(detected(Some(("deu", 81))), Some(("en", 0)));
    assert_eq!(detected(Some(("zul", 81))), Some(("en", 0)));
    assert_eq!(detected(None), Some(("en", 0)));
    assert!(detect_lang(&TABLE[1..], None).is_none());
}

#[test]
fn codes_are_found() {
    assert_eq!(get_language_from_code(&TABLE, "pt-BR").map(|l| l.name), Some("Portuguese (Brazil)"));
    assert_eq!(get_language_from_code(&TABLE, "pb").map(|l| l.name), Some("Portuguese (Brazil)"));
    assert!(get_language_from_code(&TABLE, "PT-BR").is_none());
    assert!(get_language_from_code(&TABLE, "").is_none());
}

#[test]
fn settings_choose_the_detector() {
    let mut args = Args {
        host: String::new(),
        port: 0,
        char_limit: 0,
        batch_limit: 0,
        model: String::new(),
        backend_host: String::new(),
        api_key: String::new(),
        backend_api_key: String::new(),
        retry_attempts: 0,
        retry_delay: 0,
        model_recheck_interval: 0,
        llm_detect: false,
        benchmark: false,
        dataset: None,
        disable_cleanup: false,
    };
    assert_eq!(create_detector(&args), Detector::Whatlang);
    args.llm_detect = true;
    assert_eq!(create_detector(&args), Detector::Llm);
    assert!(args.backend_key().is_none());
    args.backend_api_key = "k".to_string();
    assert_eq!(args.backend_key(), Some("k"));
}

#[test]
fn known_languages_are_matched_in_any_surroundings() {
    let table = known_languages();
    assert_eq!(table.len(), 50);
    let code = |response: &str| match_language(&table, response).map(|l| l.code);
    for l in &table {
        assert_eq!(code(l.name), Some(l.code));
        assert_eq!(code(&format!(" \t{}\n", l.name)), Some(l.code));
        assert_eq!(code(&format!("\"({})' ", l.name.to_ascii_uppercase())), Some(l.code));
        let whole = parse_detection_response(&table, &format!("  {} ", l.name)).unwrap();
        assert_eq!((whole.0.code, whole.1), (l.code, 100));
    }
    assert_eq!(code("Chinese (traditional"), None);
    assert_eq!(code("((Esperanto"), Some("eo"));
    assert!(parse_detection_response(&table, " Portuguese (Brazil) 101 ").is_none());
}
