use ltengine::backend::json::Json;
use ltengine::backend::openai::{
    ChatMessage, ChatReply, Choice, CompletionResponse, Endpoint, Probe, ProbeStep,
};
use ltengine::backend::warnings::ModelEnumWarnings;
use ltengine::backend::{
    map_translation_error, BackendError, CreationStep, ModelAvailability, OpenAiProvider,
    ProviderConfig, ProviderManager, TranslateError, TranslateStep, TranslationResult,
};

type Reply = Result<TranslationResult, TranslateError>;

/// A provider that gives a reply for every call.
struct Mock {
    calls: u32,
    reply: fn(u32) -> Reply,
}

fn ok(text: &str) -> Reply {
    Ok(TranslationResult { text: text.to_string(), backend_timings: None })
}

fn retryable(detail: String) -> Reply {
    Err(TranslateError::Backend(BackendError::Retryable(detail)))
}

fn config(max_attempts: usize, base_delay_ms: u64) -> ProviderConfig {
    ProviderConfig { max_attempts, base_delay_ms, ..Default::default() }
}

/// Carries a translation out, with a backend that does not answer to checks. Gives the reply, the
/// number of calls of the provider and the delays in milliseconds.
fn translate(manager: &mut ProviderManager<Mock>) -> (Reply, u32, Vec<u64>) {
    let mut calls = 0;
    let mut delays = Vec::new();
    let mut step = manager.translate();
    loop {
        step = match step {
            TranslateStep::Call { attempt } => {
                let mock = manager.provider.as_mut().unwrap();
                let reply = (mock.reply)(mock.calls);
                mock.calls += 1;
                calls += 1;
                assert!(manager.config.delay_fits(attempt));
                manager.replied(attempt, reply)
            }
            TranslateStep::CallAfter { delay_ms, attempt } => {
                delays.push(delay_ms);
                TranslateStep::Call { attempt }
            }
            TranslateStep::AcquireGuard { timeout_ms } => {
                assert_eq!(timeout_ms, 2000);
                manager.guard_acquired()
            }
            TranslateStep::LookAgain { .. } => manager.looked_again(),
            TranslateStep::Create => {
                let mut attempt = manager.first_check();
                loop {
                    assert!(manager.config.delay_fits(attempt));
                    match manager.create_with_retry(attempt, ModelAvailability::Unreachable) {
                        CreationStep::Ready => unreachable!(),
                        CreationStep::CheckAfter { delay_ms, attempt: next } => {
                            delays.push(delay_ms);
                            attempt = next;
                        }
                        CreationStep::Failed(e) => return (Err(e), calls, delays),
                    }
                }
            }
            TranslateStep::Finish(reply) => return (reply, calls, delays),
        };
    }
}

#[test]
fn test_retry_on_transient_failures() {
    let provider = Mock {
        calls: 0,
        reply: |n| {
            if n < 2 {
                retryable(format!("Simulated timeout (call {})", n))
            } else {
                ok("Finally worked")
            }
        },
    };
    let mut manager = ProviderManager::from_provider(provider, config(3, 1));
    let (result, calls, delays) = translate(&mut manager);
    assert!(result.is_ok());
    assert_eq!(result.unwrap().text, "Finally worked");
    assert_eq!(calls, 3);
    assert_eq!(delays, [1, 2]);
    assert!(manager.get_provider().is_some());
}

#[test]
fn test_permanent_error_drops_provider() {
    let provider = Mock {
        calls: 0,
        reply: |_| Err(TranslateError::Backend(BackendError::Http(401))),
    };
    let mut manager = ProviderManager::from_provider(provider, config(5, 1000));
    let (result, calls, delays) = translate(&mut manager);
    assert!(result.is_err());
    assert!(result.unwrap_err().message().contains("HTTP error 401"));
    assert_eq!(calls, 1);
    assert!(delays.is_empty());
    assert!(manager.get_provider().is_none());

    let (again, calls, delays) = translate(&mut manager);
    assert!(again.is_err());
    assert_eq!(
        again.unwrap_err().message(),
        "Failed to create provider after 5 attempts. Backend may be unreachable or model '' not available."
    );
    assert_eq!(calls, 0);
    assert_eq!(delays, [1000, 2000, 4000, 8000]);
}

#[test]
fn attempts_are_bounded() {
    for max_attempts in [0, 1, 4] {
        let provider = Mock { calls: 0, reply: |_| retryable("down".to_string()) };
        let mut manager = ProviderManager::from_provider(provider, config(max_attempts, 10));
        let (result, calls, _) = translate(&mut manager);
        assert_eq!(result.unwrap_err().message(), "down");
        assert_eq!(calls as usize, max_attempts.max(1));
        assert!(manager.get_provider().is_none());
    }
}

#[test]
fn errors_without_a_backend_error_are_answered_at_once() {
    let provider = Mock { calls: 0, reply: |_| Err(TranslateError::Generic("odd".to_string())) };
    let mut manager = ProviderManager::from_provider(provider, config(5, 10));
    let (result, calls, _) = translate(&mut manager);
    assert_eq!(result.unwrap_err().message(), "odd");
    assert_eq!(calls, 1);
    assert!(manager.get_provider().is_none());
}

#[test]
fn delays_double() {
    let c = ProviderConfig::default();
    assert_eq!((c.max_attempts, c.base_delay_ms, c.recheck_interval_secs), (5, 1000, 30));
    assert_eq!(c.next_delay(1), Some(1000));
    assert_eq!(c.next_delay(4), Some(8000));
    assert_eq!(c.next_delay(5), None);
    assert_eq!(config(0, 7).next_delay(1), None);
    let long = config(100, 1);
    assert!(long.delay_fits(64));
    assert_eq!(long.next_delay(64), Some(1 << 63));
    assert!(!long.delay_fits(65));
    assert!(config(100, 0).delay_fits(99));
    assert_eq!(config(100, 0).next_delay(99), Some(0));
    assert!(!config(100, u64::MAX).delay_fits(2));
    assert!(config(100, u64::MAX).delay_fits(1));
    assert!(config(2, u64::MAX).delay_fits(2));
}

fn manager() -> ProviderManager<Mock> {
    ProviderManager::new("localhost:11434", "gemma3", Some("key"), config(2, 100))
}

#[test]
fn a_new_manager_has_no_provider() {
    let m = manager();
    assert!(m.get_provider().is_none());
    assert_eq!((m.host.as_str(), m.model.as_str()), ("localhost:11434", "gemma3"));
    assert_eq!(m.api_key.as_deref(), Some("key"));
    assert!(m.keeps_rechecking());
    assert_eq!(m.start_rechecker(), Some(30));
    let mut quiet = manager();
    quiet.config.recheck_interval_secs = 0;
    assert_eq!(quiet.start_rechecker(), None);
    quiet.shutdown();
    assert!(!quiet.keeps_rechecking());
}

#[test]
fn models_are_matched_with_their_tags() {
    let found = |names: &[&str]| {
        manager().check_model_available(Some(names.iter().map(|s| s.to_string()).collect()))
    };
    assert!(matches!(found(&["gemma3"]), ModelAvailability::Available));
    assert!(matches!(found(&["llama3", "gemma3:4b"]), ModelAvailability::Available));
    assert!(matches!(found(&["gemma3:"]), ModelAvailability::Available));
    assert!(matches!(found(&["gemma3-4b"]), ModelAvailability::ModelNotFound(_)));
    assert!(matches!(found(&["gemma"]), ModelAvailability::ModelNotFound(_)));
    assert!(matches!(found(&[]), ModelAvailability::EnumerationFailed));
    assert!(matches!(manager().check_model_available(None), ModelAvailability::Unreachable));
    match found(&["a", "b"]) {
        ModelAvailability::ModelNotFound(models) => assert_eq!(models, ["a", "b"]),
        _ => unreachable!(),
    }
}

#[test]
fn a_missing_model_is_final() {
    let m = manager();
    let models = vec!["llama3:8b".to_string(), "say \"hi\"".to_string()];
    match m.create_with_retry(1, ModelAvailability::ModelNotFound(models)) {
        CreationStep::Failed(TranslateError::Backend(BackendError::ModelNotFound(msg))) => {
            assert_eq!(
                msg,
                "Model 'gemma3' not available. Available models: [\"llama3:8b\", \"say \\\"hi\\\"\"]"
            );
        }
        _ => unreachable!(),
    }
    assert!(matches!(m.create_with_retry(1, ModelAvailability::Available), CreationStep::Ready));
    assert!(matches!(
        m.create_with_retry(2, ModelAvailability::EnumerationFailed),
        CreationStep::Ready
    ));
}

#[test]
fn an_unreachable_backend_is_tried_again() {
    let m = manager();
    assert!(matches!(
        m.create_with_retry(1, ModelAvailability::Unreachable),
        CreationStep::CheckAfter { delay_ms: 100, attempt: 2 }
    ));
    match m.create_with_retry(2, ModelAvailability::Unreachable) {
        CreationStep::Failed(e) => assert_eq!(
            e.message(),
            "Failed to create provider after 2 attempts. Backend may be unreachable or model 'gemma3' not available."
        ),
        _ => unreachable!(),
    }
}

#[test]
fn requests_without_a_provider_go_through_the_guard() {
    let mut m = manager();
    assert!(matches!(m.translate(), TranslateStep::AcquireGuard { timeout_ms: 2000 }));
    assert!(matches!(m.guard_acquired(), TranslateStep::Create));
    assert!(matches!(m.guard_timed_out(), TranslateStep::LookAgain { delay_ms: 100 }));
    match m.looked_again() {
        TranslateStep::Finish(Err(e)) => assert_eq!(
            e.message(),
            "Could not create provider in time, backend may be unreachable"
        ),
        _ => unreachable!(),
    }
    match m.provider_in_use() {
        TranslateStep::Finish(Err(e)) => {
            assert_eq!(e.message(), "Provider became unavailable after creation")
        }
        _ => unreachable!(),
    }
    m.provider_created(Mock { calls: 0, reply: |_| ok("x") });
    assert!(matches!(m.translate(), TranslateStep::Call { attempt: 1 }));
    assert!(matches!(m.guard_acquired(), TranslateStep::Call { attempt: 1 }));
    assert!(matches!(m.looked_again(), TranslateStep::Call { attempt: 1 }));
    assert!(matches!(m.provider_in_use(), TranslateStep::Call { attempt: 1 }));
}

#[test]
fn creation_at_the_start_and_in_the_background() {
    let mut m = manager();
    assert!(!m.initialize(None));
    assert!(m.get_provider().is_none());
    assert!(m.initialize(Some(Mock { calls: 7, reply: |_| ok("x") })));
    assert_eq!(m.get_provider().unwrap().calls, 7);
    assert!(!m.initialize(None));
    assert_eq!(m.get_provider().unwrap().calls, 7);
    assert!(m.recheck_model_availability(&ModelAvailability::Available));
    assert!(m.recheck_model_availability(&ModelAvailability::EnumerationFailed));
    assert!(!m.recheck_model_availability(&ModelAvailability::Unreachable));
    assert!(!m.recheck_model_availability(&ModelAvailability::ModelNotFound(Vec::new())));
}

#[test]
fn pings_drop_the_provider_on_permanent_errors_only() {
    let mut m = manager();
    assert_eq!(m.ping().unwrap_err().message(), "No provider available");
    m.initialize(Some(Mock { calls: 0, reply: |_| ok("x") }));
    assert!(m.ping().is_ok());
    m.pinged(&Ok(()));
    m.pinged(&Err(TranslateError::Backend(BackendError::Retryable("slow".to_string()))));
    m.pinged(&Err(TranslateError::Generic("not reachable".to_string())));
    assert!(m.get_provider().is_some());
    m.pinged(&Err(TranslateError::Backend(BackendError::Http(401))));
    assert!(m.get_provider().is_none());
    m.initialize(Some(Mock { calls: 0, reply: |_| ok("x") }));
    m.pinged(&Err(TranslateError::Backend(BackendError::Http(503))));
    assert!(m.get_provider().is_none());
}

#[test]
fn server_failures_are_retried() {
    let provider = Mock {
        calls: 0,
        reply: |n| {
            if n < 2 {
                Err(TranslateError::Backend(BackendError::Http(503)))
            } else {
                ok("Back again")
            }
        },
    };
    let mut manager = ProviderManager::from_provider(provider, config(3, 10));
    let (result, calls, delays) = translate(&mut manager);
    assert_eq!(result.unwrap().text, "Back again");
    assert_eq!(calls, 3);
    assert_eq!(delays, [10, 20]);
    assert!(manager.get_provider().is_some());

    let failing = Mock {
        calls: 0,
        reply: |_| Err(TranslateError::Backend(BackendError::Http(502))),
    };
    let mut manager = ProviderManager::from_provider(failing, config(2, 10));
    let (result, calls, _) = translate(&mut manager);
    assert_eq!(calls, 2);
    assert!(manager.get_provider().is_none());
    let answer = map_translation_error(result.unwrap_err());
    assert_eq!((answer.error.as_str(), answer.status), ("Backend returned 502", 503));
}

#[test]
fn errors_in_words_and_statuses() {
    let answer = |e| {
        let r = map_translation_error(e);
        (r.error, r.status)
    };
    let backend = TranslateError::Backend;
    assert_eq!(
        answer(backend(BackendError::Http(401))),
        ("Backend returned 401".to_string(), 403)
    );
    assert_eq!(
        answer(backend(BackendError::Http(404))),
        ("Backend returned 404".to_string(), 404)
    );
    assert_eq!(
        answer(backend(BackendError::Http(65535))),
        ("Backend returned 65535".to_string(), 503)
    );
    assert_eq!(
        answer(backend(BackendError::ModelNotFound("no such model".to_string()))),
        ("no such model".to_string(), 404)
    );
    assert_eq!(
        answer(backend(BackendError::Retryable("10.0.0.1 refused".to_string()))),
        ("Backend temporarily unavailable".to_string(), 503)
    );
    assert_eq!(
        answer(backend(BackendError::Other("parse".to_string()))),
        ("Backend error".to_string(), 500)
    );
    assert_eq!(
        answer(TranslateError::Generic("creation failed".to_string())),
        ("creation failed".to_string(), 503)
    );
    assert_eq!(BackendError::Http(0).message(), "Backend HTTP error 0");
    assert_eq!(BackendError::Other("o".to_string()).message(), "o");
}

#[test]
fn urls_and_headers() {
    let p = OpenAiProvider::new("localhost:11434", "m", Some("k"));
    assert_eq!(p.base_url, "http://localhost:11434");
    assert_eq!(p.chat_url(), "http://localhost:11434/v1/chat/completions");
    assert_eq!(p.authorization().as_deref(), Some("Bearer k"));
    let q = OpenAiProvider::new("https://example.org", "m", None);
    assert_eq!(q.base_url, "https://example.org");
    assert_eq!(OpenAiProvider::new("http://ollama:11434", "m", None).base_url, "http://ollama:11434");
    assert_eq!(OpenAiProvider::new("http:/x", "m", None).base_url, "http://http:/x");
    assert_eq!(q.endpoint_url(Endpoint::Models), "https://example.org/v1/models");
    assert_eq!(q.endpoint_url(Endpoint::Tags), "https://example.org/api/tags");
    assert_eq!(q.endpoint_url(Endpoint::Health), "https://example.org/health");
    assert_eq!(q.authorization(), None);
    let chat = p.chat_request("be exact", "Hello");
    assert_eq!(chat.model, "m");
    assert_eq!(chat.messages.len(), 2);
    assert_eq!((chat.messages[0].role, chat.messages[0].content.as_str()), ("system", "be exact"));
    assert_eq!((chat.messages[1].role, chat.messages[1].content.as_str()), ("user", "Hello"));
}

#[test]
fn replies_of_the_backend() {
    let p = OpenAiProvider::new("h", "m", None);
    let not_sent = |timeout, connect| {
        p.translate_with_config(ChatReply::NotSent {
            timeout,
            connect,
            detail: "why".to_string(),
        })
        .unwrap_err()
    };
    assert!(not_sent(true, false).transient());
    assert!(not_sent(false, true).transient());
    assert!(!not_sent(false, false).transient());
    assert!(!not_sent(false, false).permanent());
    assert_eq!(not_sent(false, false).message(), "why");
    let status = |code| p.translate_with_config(ChatReply::Status(code)).unwrap_err();
    for code in [400, 401, 404, 429, 500, 503, 599, 600] {
        assert!(matches!(status(code), TranslateError::Backend(BackendError::Http(c)) if c == code));
        assert_eq!(status(code).transient(), (500..600).contains(&code));
        assert!(status(code).permanent());
    }
    assert_eq!(status(503).message(), "Backend HTTP error 503");
    let unreadable = p.translate_with_config(ChatReply::Unreadable).unwrap_err();
    assert!(unreadable.permanent());
    assert_eq!(unreadable.message(), "Failed to parse backend response as JSON");
    let choice = |content: Option<&str>| Choice {
        message: ChatMessage { content: content.map(|c| c.to_string()) },
    };
    let completion =
        |choices| p.translate_with_config(ChatReply::Completion(CompletionResponse { choices }));
    assert_eq!(completion(vec![choice(Some("Hola")), choice(Some("x"))]).unwrap().text, "Hola");
    assert_eq!(completion(vec![choice(Some(""))]).unwrap().text, "");
    for choices in [Vec::new(), vec![choice(None), choice(Some("x"))]] {
        assert_eq!(completion(choices).unwrap_err().message(), "Empty response from backend");
    }
}

fn text(t: &str) -> Json {
    Json::Text(t.to_string())
}

fn object(members: Vec<(&str, Json)>) -> Json {
    Json::Object(members.into_iter().map(|(k, v)| (k.to_string(), v)).collect())
}

#[test]
fn models_are_listed_from_replies() {
    let p = OpenAiProvider::new("h", "m", None);
    let models = object(vec![
        ("object", text("list")),
        (
            "data",
            Json::Array(vec![
                object(vec![("id", text("a"))]),
                object(vec![("id", Json::Number("7".to_string()))]),
                object(vec![("name", text("n"))]),
                Json::Null,
                object(vec![("x", Json::Bool(true)), ("id", text("b"))]),
            ]),
        ),
    ]);
    match p.check_model_availability(Probe::Models(Some(models))) {
        ProbeStep::Listed(names) => assert_eq!(names, ["a", "b"]),
        _ => unreachable!(),
    }
    let tags = object(vec![("models", Json::Array(vec![object(vec![("name", text("t"))])]))]);
    match p.check_model_availability(Probe::Tags(Some(tags))) {
        ProbeStep::Listed(names) => assert_eq!(names, ["t"]),
        _ => unreachable!(),
    }
}

#[test]
fn endpoints_are_asked_in_order() {
    let p = OpenAiProvider::new("h:1", "m", None);
    assert_eq!(p.first_endpoint(), Endpoint::Models);
    let empty = || object(vec![("data", Json::Array(Vec::new())), ("models", text("none"))]);
    for reply in [None, Some(empty()), Some(Json::Null)] {
        assert!(matches!(
            p.check_model_availability(Probe::Models(reply)),
            ProbeStep::Ask(Endpoint::Tags)
        ));
    }
    for reply in [None, Some(empty()), Some(Json::Array(Vec::new()))] {
        assert!(matches!(
            p.check_model_availability(Probe::Tags(reply)),
            ProbeStep::Ask(Endpoint::Health)
        ));
    }
    match p.check_model_availability(Probe::Health(true)) {
        ProbeStep::Listed(names) => assert!(names.is_empty()),
        _ => unreachable!(),
    }
    match p.check_model_availability(Probe::Health(false)) {
        ProbeStep::Unreachable(e) => {
            assert_eq!(e.message(), "Backend at http://h:1 is not reachable")
        }
        _ => unreachable!(),
    }
    assert!(p.ping_backend(true).is_ok());
    assert_eq!(
        p.ping_backend(false).unwrap_err().message(),
        "Backend at http://h:1 is not reachable"
    );
}

#[test]
fn warnings_are_held_back_for_ten_seconds() {
    let second = 1_000_000_000;
    let mut w = ModelEnumWarnings::new();
    assert!(w.static_last_model_enum_warning_check("a", 5 * second));
    assert!(!w.static_last_model_enum_warning_check("a", 5 * second));
    assert!(w.static_last_model_enum_warning_check("b", 6 * second));
    assert!(!w.static_last_model_enum_warning_check("a", 15 * second - 1));
    assert!(w.static_last_model_enum_warning_check("a", 15 * second));
    assert!(!w.static_last_model_enum_warning_check("a", 24 * second));
    assert!(w.static_last_model_enum_warning_check("b", 24 * second));
}

#[test]
fn enumeration_warnings() {
    let p = OpenAiProvider::new("h:1", "gemma3", Some("secret"));
    assert_eq!(p.warning_key(), "http://h:1:gemma3");
    let second = 1_000_000_000;
    let mut w = ModelEnumWarnings::new();
    assert_eq!(p.enumeration_warning(&Probe::Health(false), &mut w, second), None);
    assert_eq!(p.enumeration_warning(&Probe::Tags(None), &mut w, second), None);
    assert_eq!(p.enumeration_warning(&Probe::Models(None), &mut w, second), None);
    assert_eq!(
        p.enumeration_warning(&Probe::Health(true), &mut w, second).as_deref(),
        Some("Warning: backend at http://h:1 is reachable but model enumeration failed, assuming model 'gemma3' is available")
    );
    assert_eq!(p.enumeration_warning(&Probe::Health(true), &mut w, 2 * second), None);
    let other = OpenAiProvider::new("h:1", "llama3", None);
    assert!(other.enumeration_warning(&Probe::Health(true), &mut w, 2 * second).is_some());
    assert!(p.enumeration_warning(&Probe::Health(true), &mut w, 11 * second).is_some());
}

#[test]
fn keys_stay_out_of_errors() {
    let with = OpenAiProvider::new("h", "m", Some("secret"));
    let without = OpenAiProvider::new("h", "m", None);
    for code in [401, 500] {
        let a = with.translate_with_config(ChatReply::Status(code)).unwrap_err();
        let b = without.translate_with_config(ChatReply::Status(code)).unwrap_err();
        assert_eq!(a.message(), b.message());
        assert!(!a.message().contains("secret"));
    }
}
