use ltengine::args::Args;
use ltengine::backend::{BackendError, TranslateError, TranslationResult};
use ltengine::detection::Detector;
use ltengine::error_response::{not_implemented, ErrorResponse};
use ltengine::languages::{detect_lang, LangDetect, Language};
use ltengine::prompt::{Prompt, PromptBuilder};
use ltengine::request::{QueryText, TranslateRequest};
use ltengine::service::{
    backend_health, detect, detect_response, get_frontend_settings, health, translate, Alternatives,
    DetectedLanguage, TranslateResponse, Work,
};

const TABLE: [Language; 4] = [
    Language { code: "en", name: "English", internal_code: "en" },
    Language { code: "es", name: "Spanish", internal_code: "es" },
    Language { code: "fr", name: "French", internal_code: "fr" },
    Language { code: "zh-Hans", name: "Chinese", internal_code: "zh" },
];

const ENGLISH: &str = "This sentence is written in English with several common English words";
const FRENCH: &str = "Cette phrase est \u{E9}crite en fran\u{E7}ais avec plusieurs mots fran\u{E7}ais courants";

fn test_args() -> Args {
    Args {
        host: "127.0.0.1".to_string(),
        port: 5050,
        char_limit: 5000,
        batch_limit: 50,
        model: "test-model".to_string(),
        backend_host: "localhost:59999".to_string(),
        api_key: String::new(),
        backend_api_key: String::new(),
        retry_attempts: 1,
        retry_delay: 1,
        model_recheck_interval: 0,
        llm_detect: false,
        benchmark: false,
        dataset: None,
        disable_cleanup: false,
    }
}

fn single(q: &str) -> QueryText {
    QueryText::Single(q.to_string())
}

fn batch(items: &[&str]) -> QueryText {
    QueryText::Batch(items.iter().map(|s| s.to_string()).collect())
}

fn request(q: QueryText, source: &str, target: &str) -> TranslateRequest {
    TranslateRequest {
        q: Some(q),
        source: Some(source.to_string()),
        target: Some(target.to_string()),
        format: None,
        api_key: None,
        alternatives: None,
        enable_cleanup_reporting: None,
        enable_performance_reporting: None,
    }
}

/// The statistical detector.
fn whatlang(text: &str) -> LangDetect<'static> {
    let info = whatlang::detect(text).unwrap();
    let percent = (info.confidence() * 100.0) as i32;
    detect_lang(&TABLE, Some((info.lang().code(), percent))).unwrap()
}

/// Carries a request out with a backend that replies as given. Gives the prompts too.
fn run(
    body: TranslateRequest,
    args: &Args,
    backend: fn(&Prompt) -> Result<TranslationResult, TranslateError>,
) -> Result<(TranslateResponse<'static>, Vec<Prompt>), ErrorResponse> {
    let mut prompts = Vec::new();
    let mut t = translate(body, args, &TABLE)?;
    loop {
        match t.next() {
            Work::Detect { index } => {
                let found = whatlang(&t.q.as_slice()[index]);
                t.detected(found);
            }
            Work::Translate { prompt, .. } => {
                let reply = backend(&prompt);
                prompts.push(prompt);
                t.translated(reply)?;
            }
            Work::Done => return Ok((t.response(), prompts)),
        }
    }
}

fn ok(text: &str) -> Result<TranslationResult, TranslateError> {
    Ok(TranslationResult { text: text.to_string(), backend_timings: None })
}

fn mock(_: &Prompt) -> Result<TranslationResult, TranslateError> {
    ok("TranslatedText")
}

fn polluted(_: &Prompt) -> Result<TranslationResult, TranslateError> {
    ok("Hello\u{200B}wo\u{00AD}rld")
}

fn refusal(body: TranslateRequest, args: &Args) -> (String, u16) {
    match run(body, args, mock) {
        Err(e) => (e.error, e.status),
        Ok(_) => panic!("not refused"),
    }
}

#[test]
fn test_prompt_builder() {
    let mut pb = PromptBuilder::new();
    pb.set_source_language("English");
    pb.set_target_language("Spanish");
    let prompt = pb.build(&"Hello!".to_string());
    assert!(prompt.system.contains("expert linguist"));
    assert!(prompt.user.contains("Spanish"));
    assert!(prompt.user.contains("Hello!"));
}

#[test]
fn prompts_in_full() {
    let mut pb = PromptBuilder::new();
    pb.set_target_language("French");
    assert_eq!(
        pb.build(&"Hi".to_string()).user,
        "Translate the following text to French:\n\nHi"
    );
    pb.set_format("html");
    pb.set_source_language("English");
    assert_eq!(
        pb.build(&"<b>Hi</b>".to_string()).user,
        "Translate the following HTML, keeping its markup as it is, from English to French:\n\n<b>Hi</b>"
    );
    let detect = pb.build_detect_prompt("Ciao");
    assert_eq!(detect.user, "Identify the language of the following text:\n\nCiao");
    assert!(detect.system.contains("expert linguist"));
}

#[test]
fn test_translate_scalar_and_batch_response_shapes() {
    let args = test_args();

    let mut scalar = request(single("Hello"), "en", "es");
    scalar.alternatives = Some(1);
    let (scalar_resp, _) = run(scalar, &args, mock).unwrap_or_else(|_| panic!("refused"));
    assert_eq!(scalar_resp.translated_text, single("TranslatedText"));
    assert!(matches!(scalar_resp.alternatives, Some(Alternatives::Single(list)) if list.is_empty()));

    let mut many = request(batch(&["Hello", "World"]), "en", "es");
    many.alternatives = Some(1);
    let (batch_resp, _) = run(many, &args, mock).unwrap_or_else(|_| panic!("refused"));
    assert_eq!(batch_resp.translated_text, batch(&["TranslatedText", "TranslatedText"]));
    match batch_resp.alternatives {
        Some(Alternatives::Batch(lists)) => {
            assert_eq!(lists.len(), 2);
            assert!(lists.iter().all(|l| l.is_empty()));
        }
        _ => unreachable!(),
    }

    let form = request(single("Hello"), "en", "es");
    let (form_resp, _) = run(form, &args, mock).unwrap_or_else(|_| panic!("refused"));
    assert_eq!(form_resp.translated_text, single("TranslatedText"));
    assert!(form_resp.alternatives.is_none());
    assert!(form_resp.detected_language.is_none());
}

#[test]
fn test_translate_auto_batch_detected_language_shape() {
    let args = test_args();
    let body = request(batch(&[ENGLISH, FRENCH]), "auto", "es");
    let (resp, prompts) = run(body, &args, mock).unwrap_or_else(|_| panic!("refused"));
    assert_eq!(resp.translated_text, batch(&["TranslatedText", "TranslatedText"]));
    match resp.detected_language {
        Some(DetectedLanguage::Batch(detected)) => {
            assert_eq!(detected.len(), 2);
            assert_eq!(detected[0].language.code, "en");
            assert_eq!(detected[1].language.code, "fr");
        }
        _ => unreachable!(),
    }
    assert!(prompts[0].user.contains("from English to Spanish"));
    assert!(prompts[1].user.contains("from French to Spanish"));
}

#[test]
fn test_detect_accepts_batch_q() {
    let args = test_args();
    let mut body = request(batch(&[ENGLISH, FRENCH]), "", "");
    body.source = None;
    body.target = None;
    assert!(matches!(detect(&body, &args, false), Ok(Detector::Whatlang)));
    let q = body.q.unwrap();
    let found: Vec<LangDetect> = q.as_slice().iter().map(|t| whatlang(t)).collect();
    let answer = detect_response(&q, found);
    assert_eq!(answer.len(), 2);
    assert_eq!(answer[0].language, "en");
    assert_eq!(answer[1].language, "fr");
    assert!((0..=100).contains(&answer[0].confidence));
    assert!((0..=100).contains(&answer[1].confidence));
}

#[test]
fn detections_are_answered_in_order_with_public_codes() {
    let found = vec![
        LangDetect { language: &TABLE[3], confidence: 7 },
        LangDetect { language: &TABLE[0], confidence: 100 },
    ];
    let answer = detect_response(&batch(&["a", "b"]), found);
    let told: Vec<(&str, i32)> = answer.iter().map(|e| (e.language, e.confidence)).collect();
    assert_eq!(told, [("zh-Hans", 7), ("en", 100)]);
}

#[test]
fn test_cleanup_reporting_enabled_shows_stats() {
    let args = test_args();
    let mut body = request(single("Hello world"), "en", "es");
    body.enable_cleanup_reporting = Some(true);
    let (resp, _) = run(body, &args, polluted).unwrap_or_else(|_| panic!("refused"));
    assert_eq!(resp.translated_text, single("Hellowo-rld"));
    let cleanup = resp.cleanup.unwrap();
    assert_eq!(cleanup.removed, 1);
    assert_eq!(cleanup.replaced, 1);
}

#[test]
fn test_cleanup_reporting_disabled_no_reports() {
    let args = test_args();
    let mut body = request(single("Hello world"), "en", "es");
    body.enable_cleanup_reporting = Some(false);
    let (resp, _) = run(body, &args, polluted).unwrap_or_else(|_| panic!("refused"));
    assert_eq!(resp.translated_text, single("Hellowo-rld"));
    assert!(resp.cleanup.is_none());

    let omitted = request(single("Hello world"), "en", "es");
    let (resp, _) = run(omitted, &args, polluted).unwrap_or_else(|_| panic!("refused"));
    assert_eq!(resp.translated_text, single("Hellowo-rld"));
    assert!(resp.cleanup.is_none());
}

#[test]
fn cleanup_is_summed_up_and_can_be_switched_off() {
    let mut args = test_args();
    let body = || {
        let mut b = request(batch(&["Hello world", "Bye"]), "en", "es");
        b.enable_cleanup_reporting = Some(true);
        b
    };
    let (resp, _) = run(body(), &args, polluted).unwrap_or_else(|_| panic!("refused"));
    let cleanup = resp.cleanup.unwrap();
    assert_eq!((cleanup.removed, cleanup.replaced), (2, 2));
    args.disable_cleanup = true;
    let (resp, _) = run(body(), &args, polluted).unwrap_or_else(|_| panic!("refused"));
    assert_eq!(resp.translated_text.as_slice()[0], "Hello\u{200B}wo\u{AD}rld");
    let cleanup = resp.cleanup.unwrap();
    assert_eq!((cleanup.removed, cleanup.replaced), (0, 0));
}

#[test]
fn same_source_and_target_is_returned_unchanged() {
    let args = test_args();
    for q in [single("  hello\u{200B}. "), batch(&["one ", "Two!"])] {
        let body = request(q.clone(), "en", "en");
        let (resp, prompts) = run(body, &args, mock).unwrap_or_else(|_| panic!("refused"));
        assert_eq!(resp.translated_text, q);
        assert!(prompts.is_empty());
        assert!(resp.detected_language.is_none());
    }
}

#[test]
fn texts_found_in_the_target_language_go_to_the_backend() {
    let args = test_args();
    let english = format!(" {} ", ENGLISH);
    let body = request(batch(&[&english, FRENCH]), "auto", "en");
    let (resp, prompts) = run(body, &args, mock).unwrap_or_else(|_| panic!("refused"));
    assert_eq!(resp.translated_text, batch(&["TranslatedText", "TranslatedText"]));
    assert_eq!(prompts.len(), 2);
    assert!(prompts[0].user.contains("from English to English"));
    let alone = request(single(FRENCH), "auto", "en");
    let (resp, _) = run(alone, &args, mock).unwrap_or_else(|_| panic!("refused"));
    assert!(
        matches!(resp.detected_language, Some(DetectedLanguage::Single(d)) if d.language.code == "fr")
    );
}

#[test]
fn output_is_formatted_like_the_text() {
    let args = test_args();
    let body = request(batch(&["hello?", "HELLO"]), "en", "es");
    let (resp, _) = run(body, &args, mock).unwrap_or_else(|_| panic!("refused"));
    assert_eq!(resp.translated_text, batch(&["translatedText?", "TRANSLATEDTEXT"]));
}

#[test]
fn refused_requests() {
    let args = test_args();
    assert_eq!(
        refusal(request(single("Hi"), "en", "tlh"), &args),
        ("tlh is not supported".to_string(), 400)
    );
    assert_eq!(
        refusal(request(single("Hi"), "tlh", "en"), &args),
        ("tlh is not supported".to_string(), 400)
    );
    assert_eq!(
        refusal(request(single("Hi"), "en", "auto"), &args),
        ("auto is not supported".to_string(), 400)
    );
    assert_eq!(
        refusal(request(single(""), "en", "es"), &args),
        ("Invalid request: missing q parameter".to_string(), 400)
    );
    let mut pdf = request(single("Hi"), "en", "tlh");
    pdf.format = Some("pdf".to_string());
    assert_eq!(
        refusal(pdf, &args),
        ("Invalid format. Supported formats: text, html".to_string(), 400)
    );
    let by_internal_code = request(single("Hi"), "en", "zh");
    assert!(run(by_internal_code, &args, mock).is_ok());
}

#[test]
fn a_failure_of_the_backend_is_the_answer() {
    let args = test_args();
    let answer = |backend: fn(&Prompt) -> Result<TranslationResult, TranslateError>| {
        match run(request(batch(&["a", "b"]), "en", "es"), &args, backend) {
            Err(e) => (e.error, e.status),
            Ok(_) => panic!("answered"),
        }
    };
    assert_eq!(
        answer(|_| Err(TranslateError::Backend(BackendError::Http(401)))),
        ("Backend returned 401".to_string(), 403)
    );
    assert_eq!(
        answer(|p| {
            if p.user.ends_with("b") {
                Err(TranslateError::Backend(BackendError::Retryable("x".to_string())))
            } else {
                ok("fine")
            }
        }),
        ("Backend temporarily unavailable".to_string(), 503)
    );
}

#[test]
fn detection_requests() {
    let mut args = test_args();
    args.llm_detect = true;
    let body = request(single("Hi"), "en", "es");
    assert!(matches!(detect(&body, &args, true), Ok(Detector::Llm)));
    let e = detect(&body, &args, false).unwrap_err();
    assert_eq!(e.error, "Provider manager not available; cannot use LLM detection");
    assert_eq!(e.status, 500);
    let blank = request(batch(&["Hi", ""]), "en", "es");
    assert_eq!(detect(&blank, &args, false).unwrap_err().status, 400);
}

#[test]
fn shapes_of_texts_and_alternatives() {
    assert_eq!(single("q").shaped_translated_text(Vec::new()), single(""));
    let two = vec!["x".to_string(), "y".to_string()];
    assert_eq!(single("q").shaped_translated_text(two.clone()), single("x"));
    assert_eq!(batch(&["q"]).shaped_translated_text(two), batch(&["x", "y"]));
    assert!(matches!(
        batch(&[]).shaped_empty_alternatives(),
        Alternatives::Batch(lists) if lists.is_empty()
    ));
}

#[test]
fn health_and_settings() {
    let h = health("0.1.1");
    assert_eq!((h.status, h.service, h.version.as_str()), ("ok", "ltengine", "0.1.1"));
    let up = backend_health(&Ok(()));
    assert_eq!(
        (up.http_status, up.status, up.backend.as_str()),
        (200, "ok", "Backend is reachable")
    );
    let down = backend_health(&Err(TranslateError::Generic("No provider available".to_string())));
    assert_eq!(
        (down.http_status, down.status, down.backend.as_str()),
        (503, "error", "No provider available")
    );
    let s = get_frontend_settings(&test_args());
    assert_eq!((s.char_limit, s.frontend_timeout), (5000, 1000));
    assert_eq!((s.source.code, s.source.name), ("auto", "Auto Detect"));
    assert_eq!((s.target.code, s.target.name), ("en", "English"));
    assert!(!s.api_keys && !s.files_translation && !s.key_required && !s.suggestions);
    assert!(s.supported_files_format.is_empty());
    let n = not_implemented();
    assert_eq!((n.error.as_str(), n.status), ("Not implemented", 501));
}
