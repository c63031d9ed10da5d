use ltengine::args::Args;
use ltengine::request::{
    check_format, check_params, payload_kind, MPTranslateRequest, PayloadKind, QueryText,
    TranslateRequest,
};

fn test_args() -> Args {
    Args {
        host: "127.0.0.1".to_string(),
        port: 5050,
        char_limit: 5000,
        batch_limit: 50,
        model: "test-model".to_string(),
        backend_host: "localhost:59999".to_string(),
        api_key: String::new(),
        backend_api_key: String::new(),
        retry_attempts: 1,
        retry_delay: 1,
        model_recheck_interval: 0,
        llm_detect: false,
        benchmark: false,
        dataset: None,
        disable_cleanup: false,
    }
}

fn request(q: Option<QueryText>) -> TranslateRequest {
    TranslateRequest {
        q,
        source: Some("en".to_string()),
        target: Some("es".to_string()),
        format: None,
        api_key: None,
        alternatives: None,
        enable_cleanup_reporting: None,
        enable_performance_reporting: None,
    }
}

fn batch(items: &[&str]) -> TranslateRequest {
    request(Some(QueryText::Batch(items.iter().map(|s| s.to_string()).collect())))
}

fn single(q: &str) -> TranslateRequest {
    request(Some(QueryText::Single(q.to_string())))
}

fn checked(body: &TranslateRequest, args: &Args) -> Result<bool, (String, u16)> {
    check_params(body, args, &[("source", &body.source), ("target", &body.target)])
        .map_err(|e| (e.error, e.status))
}

#[test]
fn test_query_text_validation_rejects_empty_blank_and_over_limit_requests() {
    let mut args = test_args();
    args.char_limit = 5;

    let empty_batch = batch(&[]);
    assert_eq!(checked(&empty_batch, &args).unwrap_err().1, 400);

    let blank_item = batch(&["Hello", "  "]);
    assert_eq!(checked(&blank_item, &args).unwrap_err().1, 400);

    let total_over_limit = batch(&["Hello", "World"]);
    assert_eq!(checked(&total_over_limit, &args).unwrap_err().1, 400);

    let item_over_limit = batch(&["Hello", "World!"]);
    assert_eq!(checked(&item_over_limit, &args).unwrap_err().1, 400);

    args.batch_limit = 1;
    let batch_over_limit = batch(&["Hi", "Yo"]);
    let err = checked(&batch_over_limit, &args).unwrap_err();
    assert_eq!(err.1, 400);
    assert!(err.0.contains("batch size"));
}

#[test]
fn error_messages_of_validation() {
    let mut args = test_args();
    args.char_limit = 5;
    args.batch_limit = 2;
    let missing_q = ("Invalid request: missing q parameter".to_string(), 400);
    assert_eq!(checked(&request(None), &args), Err(missing_q.clone()));
    assert_eq!(checked(&single(" \u{2003}"), &args), Err(missing_q));
    let mut body = single("Hi");
    body.source = None;
    assert_eq!(
        checked(&body, &args),
        Err(("Invalid request: missing source parameter".to_string(), 400))
    );
    body.source = Some("en".to_string());
    body.target = Some("\t".to_string());
    assert_eq!(
        checked(&body, &args),
        Err(("Invalid request: missing target parameter".to_string(), 400))
    );
    assert_eq!(
        checked(&batch(&["a", "b", "c"]), &args),
        Err(("Invalid request: batch size (3) exceeds limit (2)".to_string(), 400))
    );
    assert_eq!(
        checked(&single("Hello!"), &args),
        Err(("Invalid request: request (6) exceeds text limit (5)".to_string(), 400))
    );
    assert_eq!(checked(&single("Hello"), &args), Ok(true));
    assert_eq!(checked(&batch(&["ab", "cde"]), &args), Ok(true));
}

#[test]
fn limit_counts_characters() {
    let mut args = test_args();
    args.char_limit = 5;
    assert_eq!(checked(&single("\u{E9}\u{E9}\u{E9}\u{E9}\u{E9}"), &args), Ok(true));
    assert_eq!(
        checked(&single("\u{E9}\u{E9}\u{E9}\u{E9}\u{E9}\u{E9}"), &args),
        Err(("Invalid request: request (6) exceeds text limit (5)".to_string(), 400))
    );
}

#[test]
fn key_of_the_service_is_required() {
    let mut args = test_args();
    args.api_key = "s\u{E9}same".to_string();
    let refused = Err(("Invalid API key".to_string(), 403));
    let mut body = single("Hi");
    assert_eq!(checked(&body, &args), refused);
    body.api_key = Some("s\u{E9}sam".to_string());
    assert_eq!(checked(&body, &args), refused);
    body.api_key = Some("s\u{E9}samf".to_string());
    assert_eq!(checked(&body, &args), refused);
    body.api_key = Some(String::new());
    assert_eq!(checked(&body, &args), refused);
    body.api_key = Some("s\u{E9}same".to_string());
    assert_eq!(checked(&body, &args), Ok(true));
    args.api_key = String::new();
    assert_eq!(checked(&body, &args), Ok(true));
}

#[test]
fn missing_parameters_come_before_the_key() {
    let mut args = test_args();
    args.api_key = "k".to_string();
    args.char_limit = 0;
    let mut body = single("Hi");
    body.source = None;
    assert_eq!(checked(&body, &args).unwrap_err().1, 400);
    body.source = Some("en".to_string());
    assert_eq!(checked(&body, &args).unwrap_err().1, 403);
    assert_eq!(check_params(&request(None), &args, &[]).unwrap_err().status, 400);
}

#[test]
fn query_text_in_numbers() {
    let one = QueryText::Single("h\u{E9}".to_string());
    assert_eq!(one.as_slice(), ["h\u{E9}".to_string()]);
    assert_eq!(one.total_len(), 3);
    assert_eq!(one.total_chars(), 2);
    assert!(!one.is_batch());
    let many = QueryText::Batch(vec!["a".to_string(), "\u{20AC}".to_string()]);
    assert_eq!(many.as_slice().len(), 2);
    assert_eq!(many.total_len(), 4);
    assert_eq!(many.total_chars(), 2);
    assert!(many.is_batch());
    assert!(!many.is_empty_or_blank());
    assert!(QueryText::Batch(Vec::new()).is_empty_or_blank());
    assert!(QueryText::Single("\n".to_string()).is_empty_or_blank());
}

#[test]
fn formats() {
    assert!(check_format("text").unwrap());
    assert!(check_format("html").unwrap());
    let e = check_format("pdf").unwrap_err();
    assert_eq!(e.error, "Invalid format. Supported formats: text, html");
    assert_eq!(e.status, 400);
    assert!(check_format("HTML").is_err());
}

#[test]
fn content_types() {
    assert_eq!(payload_kind("application/json; charset=utf-8").unwrap(), PayloadKind::Json);
    assert_eq!(
        payload_kind("application/x-www-form-urlencoded").unwrap(),
        PayloadKind::UrlEncoded
    );
    assert_eq!(payload_kind("multipart/form-data; boundary=x").unwrap(), PayloadKind::Multipart);
    for other in ["", "text/plain", "application/jso"] {
        let e = payload_kind(other).unwrap_err();
        assert_eq!((e.error.as_str(), e.status), ("Unsupported content-type", 400));
    }
}

#[test]
fn multipart_form_is_a_single_text() {
    let r = MPTranslateRequest {
        q: Some("Hello".to_string()),
        source: Some("en".to_string()),
        target: None,
        format: Some("html".to_string()),
        api_key: Some("k".to_string()),
        alternatives: Some(2),
        enable_cleanup_reporting: Some(true),
        enable_performance_reporting: None,
    }
    .into_translate_request();
    assert_eq!(r.q, Some(QueryText::Single("Hello".to_string())));
    assert_eq!(r.source.as_deref(), Some("en"));
    assert_eq!(r.target, None);
    assert_eq!(r.format.as_deref(), Some("html"));
    assert_eq!(r.api_key.as_deref(), Some("k"));
    assert_eq!(r.alternatives, Some(2));
    assert_eq!(r.enable_cleanup_reporting, Some(true));
    assert_eq!(r.enable_performance_reporting, None);
}
