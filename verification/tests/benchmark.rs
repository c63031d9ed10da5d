use ltengine::backend::{BackendError, TranslateError};
use ltengine::benchmark::{
    detection_prompt, evaluate_item, find_ground_truth_language, llm_verdict, summarize,
    table_header, table_row, translation_prompt, whatlang_verdict, BenchmarkItem,
};
use ltengine::languages::{LangDetect, Language};

const TABLE: [Language; 3] = [
    Language { code: "en", name: "English", internal_code: "en" },
    Language { code: "pt-BR", name: "Portuguese (Brazil)", internal_code: "pb" },
    Language { code: "fr", name: "French", internal_code: "fr" },
];

fn item(source_language: &str, target_language: &str) -> BenchmarkItem {
    BenchmarkItem {
        source: "Bonjour".to_string(),
        source_language: source_language.to_string(),
        target_language: target_language.to_string(),
        reference: "Hello ".to_string(),
    }
}

fn found(i: usize, confidence: i32) -> LangDetect<'static> {
    LangDetect { language: &TABLE[i], confidence }
}

#[test]
fn labels_of_datasets() {
    assert_eq!(find_ground_truth_language(&TABLE, "pb"), Some("Portuguese (Brazil)"));
    assert_eq!(find_ground_truth_language(&TABLE, "pt-BR"), Some("Portuguese (Brazil)"));
    assert_eq!(find_ground_truth_language(&TABLE, "French"), Some("French"));
    assert_eq!(find_ground_truth_language(&TABLE, "french"), None);
}

#[test]
fn verdicts_on_the_statistical_detector() {
    let right = whatlang_verdict(&item("fr", "en"), &found(2, 80));
    assert_eq!((right.detected.as_str(), right.confidence, right.correct), ("French", 80, true));
    assert!(!whatlang_verdict(&item("French", "en"), &found(2, 80)).correct);
    assert!(!whatlang_verdict(&item("fr", "en"), &found(0, 80)).correct);
}

#[test]
fn verdicts_on_the_model() {
    let verdict = |label: &str, answer: Option<&str>| {
        let d = llm_verdict(&TABLE, &item(label, "en"), answer, &found(0, 12));
        (d.detected, d.confidence, d.correct)
    };
    assert_eq!(verdict("fr", Some("French 90")), ("French".to_string(), 90, true));
    assert_eq!(verdict("French", Some("fr 90")), ("French".to_string(), 90, true));
    assert_eq!(
        verdict("pt-BR", Some("Portuguese (Brazil) 70")),
        ("Portuguese (Brazil)".to_string(), 70, true)
    );
    assert_eq!(verdict("en", Some("French 90")), ("French".to_string(), 90, false));
    assert_eq!(verdict("en", Some("no idea")), ("English".to_string(), 12, true));
    assert_eq!(verdict("English", None), ("English".to_string(), 12, false));
    assert_eq!(verdict("xx", Some("French")), ("French".to_string(), 100, false));
}

#[test]
fn prompts_for_an_item() {
    assert!(detection_prompt(&item("fr", "en")).user.ends_with("\n\nBonjour"));
    assert_eq!(
        translation_prompt(&TABLE, &item("fr", "pb")).user,
        "Translate the following text to Portuguese (Brazil):\n\nBonjour"
    );
    assert_eq!(
        translation_prompt(&TABLE, &item("fr", "French")).user,
        "Translate the following text to English:\n\nBonjour"
    );
}

#[test]
fn items_and_counts() {
    let i = item("fr", "en");
    let a = evaluate_item(&TABLE, 0, &i, true, Some("French 90"), &found(0, 50), Ok(" Hello".to_string()));
    assert_eq!(a.idx, 1);
    assert_eq!((a.source_lang.as_str(), a.target_lang.as_str()), ("fr", "en"));
    assert!(a.exact_match);
    assert!(!a.whatlang_detection.correct);
    assert!(a.llm_detection.as_ref().unwrap().correct);
    let b = evaluate_item(
        &TABLE,
        41,
        &i,
        false,
        Some("French 90"),
        &found(2, 50),
        Err(TranslateError::Backend(BackendError::Http(404))),
    );
    assert_eq!(b.idx, 42);
    assert_eq!(b.translated, "[Error: Backend HTTP error 404]");
    assert!(!b.exact_match);
    assert!(b.llm_detection.is_none());
    let results = vec![a, b];
    let s = summarize(&results);
    assert_eq!((s.total, s.exact, s.whatlang_correct, s.llm_correct), (2, 1, 1, 1));
    let none = summarize(&Vec::new());
    assert_eq!((none.total, none.exact, none.whatlang_correct, none.llm_correct), (0, 0, 0, 0));
}

#[test]
fn lines_of_the_table() {
    assert_eq!(
        table_header(true),
        format!(
            "{:<6} {:<20} {:<10} {:<20} {:<20} {:<8} {:<12} {:<8}",
            "#",
            "Source Lang (GT)",
            "Target",
            "Detected (LLM)",
            "Detected (whatlang)",
            "BLEU",
            "Exact",
            "Correct"
        )
    );
    assert!(table_header(false).contains(" \u{2014} "));
    let r = evaluate_item(
        &TABLE,
        9,
        &item("fr", "a target with a long name"),
        true,
        Some("pb"),
        &found(2, 50),
        Ok("Hello".to_string()),
    );
    assert_eq!(
        table_row(&r, "0.1234"),
        format!(
            "{:<6} {:<20} {:<10} {:<20} {:<20} {:<8} {:<12} {:<8}",
            10,
            "fr",
            "a target with a long name",
            "Portuguese (Brazil)",
            "French",
            "0.1234",
            "Yes",
            "Yes"
        )
    );
}
