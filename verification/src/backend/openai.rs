//! A backend that speaks the OpenAI chat completions API: what to ask it and what its replies
//! mean.

use vstd::prelude::*;

use crate::backend::errors::{BackendError, TranslateError, TranslationResult};
use crate::backend::json::Json;
use crate::backend::warnings::{may_warn, ModelEnumWarnings};
use crate::text;

verus! {

/// The completion that a backend replies with, as far as it is read.
pub struct CompletionResponse {
    pub choices: Vec<Choice>,
}

/// One of the alternatives that a completion offers.
pub struct Choice {
    pub message: ChatMessage,
}

/// A message of the model.
pub struct ChatMessage {
    pub content: Option<String>,
}

/// What came of a chat request.
pub enum ChatReply {
    /// The request failed before there was a response; `detail` says how, in words.
    NotSent { timeout: bool, connect: bool, detail: String },
    /// The backend responded with an error status.
    Status(u16),
    /// The response was not a completion.
    Unreadable,
    /// The response was a completion.
    Completion(CompletionResponse),
}

/// A message to the model.
pub struct RequestMessage {
    pub role: &'static str,
    pub content: String,
}

/// A chat request.
pub struct ChatRequest {
    pub model: String,
    pub messages: Vec<RequestMessage>,
}

/// The endpoint at which the backend is asked for its models or its health.
#[derive(Clone, Copy, Debug, PartialEq, Eq, Structural)]
pub enum Endpoint {
    Models,
    Tags,
    Health,
}

/// What came of asking an endpoint. A response that failed, had no status of success or was not
/// JSON stands as `None`.
pub enum Probe {
    Models(Option<Json>),
    Tags(Option<Json>),
    Health(bool),
}

/// The next thing to do to learn which models the backend has.
pub enum ProbeStep {
    /// Ask another endpoint.
    Ask(Endpoint),
    /// The backend answers and lists these models; the list is empty if it cannot be had.
    Listed(Vec<String>),
    /// The backend does not answer.
    Unreachable(TranslateError),
}

/// The models that the reply of an endpoint lists.
pub open spec fn models_in(probe: Probe) -> Seq<Seq<char>> {
    match probe {
        Probe::Models(Some(body)) => body.listed("data"@, "id"@),
        Probe::Tags(Some(body)) => body.listed("models"@, "name"@),
        _ => Seq::empty(),
    }
}

/// What the reply of an endpoint leads to.
pub enum ProbeOutcome {
    Ask(Endpoint),
    Listed(Seq<Seq<char>>),
    Unreachable,
}

/// What the reply of an endpoint leads to: an endpoint that lists models settles the matter, one
/// that lists none leads on to the next, and the last one tells no more than whether the backend
/// answers.
pub open spec fn probe_outcome(probe: Probe) -> ProbeOutcome {
    match probe {
        Probe::Models(_) => if models_in(probe).len() > 0 {
            ProbeOutcome::Listed(models_in(probe))
        } else {
            ProbeOutcome::Ask(Endpoint::Tags)
        },
        Probe::Tags(_) => if models_in(probe).len() > 0 {
            ProbeOutcome::Listed(models_in(probe))
        } else {
            ProbeOutcome::Ask(Endpoint::Health)
        },
        Probe::Health(healthy) => if healthy {
            ProbeOutcome::Listed(Seq::empty())
        } else {
            ProbeOutcome::Unreachable
        },
    }
}

impl ProbeStep {
    /// The step without its words.
    pub open spec fn outcome(self) -> ProbeOutcome {
        match self {
            ProbeStep::Ask(e) => ProbeOutcome::Ask(e),
            ProbeStep::Listed(names) => ProbeOutcome::Listed(text::texts(names@)),
            ProbeStep::Unreachable(_) => ProbeOutcome::Unreachable,
        }
    }
}

/// The URL of a host: itself, if it has a scheme, else with `http://` before it.
pub open spec fn base_url_spec(host: Seq<char>) -> Seq<char> {
    if text::begins_with(host, "http://"@) || text::begins_with(host, "https://"@) {
        host
    } else {
        "http://"@ + host
    }
}

/// What a reply to a chat request means. A timeout and a failed connection can be retried, an error
/// status is told as it is, and of a completion the first choice counts.
pub open spec fn reply_meaning(
    reply: ChatReply,
    r: Result<TranslationResult, TranslateError>,
) -> bool {
    match reply {
        ChatReply::NotSent { timeout, connect, detail } => if timeout || connect {
            r == Err::<TranslationResult, _>(
                TranslateError::Backend(BackendError::Retryable(detail)),
            )
        } else {
            r == Err::<TranslationResult, _>(TranslateError::Generic(detail))
        },
        ChatReply::Status(code) => r == Err::<TranslationResult, _>(
            TranslateError::Backend(BackendError::Http(code)),
        ),
        ChatReply::Unreadable => r matches Err(TranslateError::Backend(BackendError::Other(msg)))
            && msg@ == "Failed to parse backend response as JSON"@,
        ChatReply::Completion(body) => if body.choices@.len() > 0
            && body.choices@[0].message.content is Some {
            r matches Ok(t) && t.text@ == (body.choices@[0].message.content->0)@
                && t.backend_timings is None
        } else {
            r matches Err(TranslateError::Backend(BackendError::Other(msg))) && msg@
                == "Empty response from backend"@
        },
    }
}

/// A backend at a URL, with a model and a key.
pub struct OpenAiProvider {
    pub base_url: String,
    pub model: String,
    pub api_key: Option<String>,
}

impl OpenAiProvider {
    /// The key under which warnings are counted: the URL and the model, with a colon between them.
    pub open spec fn warning_key_spec(self) -> Seq<char> {
        self.base_url@ + ":"@ + self.model@
    }

    /// A provider for `host`, which is a host with a port, such as `localhost:11434`, or a URL,
    /// such as `http://ollama:11434`.
    pub fn new(host: &str, model: &str, api_key: Option<&str>) -> (r: Self)
        ensures
            r.base_url@ == base_url_spec(host@),
            r.model@ == model@,
            text::opt_text(r.api_key) == text::opt_str(api_key),
    {
        let base_url = if text::has_prefix(host, "http://") || text::has_prefix(host, "https://") {
            host.to_owned()
        } else {
            let mut url = "http://".to_owned();
            url.append(host);
            url
        };
        OpenAiProvider {
            base_url,
            model: model.to_owned(),
            api_key: match api_key {
                Some(k) => Some(k.to_owned()),
                None => None,
            },
        }
    }

    fn url(&self, path: &str) -> (r: String)
        ensures
            r@ == self.base_url@ + path@,
    {
        let mut out = self.base_url.clone();
        out.append(path);
        out
    }

    /// Where chat requests go.
    pub fn chat_url(&self) -> (r: String)
        ensures
            r@ == self.base_url@ + "/v1/chat/completions"@,
    {
        self.url("/v1/chat/completions")
    }

    /// Where an endpoint is asked.
    pub fn endpoint_url(&self, endpoint: Endpoint) -> (r: String)
        ensures
            r@ == self.base_url@ + match endpoint {
                Endpoint::Models => "/v1/models"@,
                Endpoint::Tags => "/api/tags"@,
                Endpoint::Health => "/health"@,
            },
    {
        match endpoint {
            Endpoint::Models => self.url("/v1/models"),
            Endpoint::Tags => self.url("/api/tags"),
            Endpoint::Health => self.url("/health"),
        }
    }

    /// The `Authorization` header of chat requests, if a key is set.
    pub fn authorization(&self) -> (r: Option<String>)
        ensures
            r is None <==> self.api_key is None,
            r matches Some(h) ==> h@ == "Bearer "@ + (self.api_key->0)@,
    {
        match &self.api_key {
            Some(key) => {
                let mut out = "Bearer ".to_owned();
                out.append(key.as_str());
                Some(out)
            },
            None => None,
        }
    }

    /// The chat request that puts the prompts to the model: the system prompt, then the user's.
    pub fn chat_request(&self, system: &str, user: &str) -> (r: ChatRequest)
        ensures
            r.model@ == self.model@,
            r.messages@.len() == 2,
            r.messages@[0].role@ == "system"@,
            r.messages@[0].content@ == system@,
            r.messages@[1].role@ == "user"@,
            r.messages@[1].content@ == user@,
    {
        let mut messages: Vec<RequestMessage> = Vec::new();
        messages.push(RequestMessage { role: "system", content: system.to_owned() });
        messages.push(RequestMessage { role: "user", content: user.to_owned() });
        ChatRequest { model: self.model.clone(), messages }
    }

    /// The translation, or the error, that a reply to a chat request stands for. Whether to ask
    /// again is not decided here.
    pub fn translate_with_config(&self, reply: ChatReply) -> (r: Result<
        TranslationResult,
        TranslateError,
    >)
        ensures
            reply_meaning(reply, r),
            reply matches ChatReply::Completion(body) ==> (body.choices@.len() > 0 ==> (
            body.choices@[0].message.content matches Some(content) ==> (r matches Ok(given)
                && given.text@ == content@))),
            reply matches ChatReply::Status(code) ==> r == Err::<TranslationResult, TranslateError>(
                TranslateError::Backend(BackendError::Http(code)),
            ),
    {
        match reply {
            ChatReply::NotSent { timeout, connect, detail } => {
                if timeout || connect {
                    Err(TranslateError::Backend(BackendError::Retryable(detail)))
                } else {
                    Err(TranslateError::Generic(detail))
                }
            },
            ChatReply::Status(code) => Err(TranslateError::Backend(BackendError::Http(code))),
            ChatReply::Unreadable => Err(
                TranslateError::Backend(
                    BackendError::Other("Failed to parse backend response as JSON".to_owned()),
                ),
            ),
            ChatReply::Completion(body) => {
                if body.choices.len() > 0 {
                    if let Some(text) = &body.choices[0].message.content {
                        return Ok(TranslationResult { text: text.clone(), backend_timings: None });
                    }
                }
                Err(
                    TranslateError::Backend(
                        BackendError::Other("Empty response from backend".to_owned()),
                    ),
                )
            },
        }
    }

    fn unreachable(&self) -> (r: TranslateError)
        ensures
            r matches TranslateError::Generic(msg) && msg@ == "Backend at "@ + self.base_url@
                + " is not reachable"@,
    {
        let mut msg = "Backend at ".to_owned();
        msg.append(self.base_url.as_str());
        msg.append(" is not reachable");
        TranslateError::Generic(msg)
    }

    /// The outcome of a ping, which asks the health endpoint: `healthy` tells whether that
    /// responded with a status of success.
    pub fn ping_backend(&self, healthy: bool) -> (r: Result<(), TranslateError>)
        ensures
            healthy ==> r is Ok,
            !healthy ==> (r matches Err(TranslateError::Generic(msg)) && msg@ == "Backend at "@
                + self.base_url@ + " is not reachable"@),
    {
        if healthy {
            Ok(())
        } else {
            Err(self.unreachable())
        }
    }

    /// The endpoint that is asked first while the models are being listed.
    pub fn first_endpoint(&self) -> (r: Endpoint)
        ensures
            r is Models,
    {
        Endpoint::Models
    }

    /// The key under which warnings about this backend and model are counted.
    pub fn warning_key(&self) -> (r: String)
        ensures
            r@ == self.warning_key_spec(),
    {
        let mut key = self.base_url.clone();
        key.append(":");
        key.append(self.model.as_str());
        key
    }

    /// The warning to log after the reply of an endpoint, if one is due: the backend is healthy,
    /// though no endpoint listed a model, and the same warning was not logged at `now` or in the
    /// ten seconds before.
    pub fn enumeration_warning(
        &self,
        probe: &Probe,
        warnings: &mut ModelEnumWarnings,
        now: u64,
    ) -> (r: Option<String>)
        requires
            old(warnings).wf(),
        ensures
            final(warnings).wf(),
            r is Some <==> *probe == Probe::Health(true) && may_warn(
                old(warnings).times(),
                self.warning_key_spec(),
                now,
            ),
            r matches Some(w) ==> w@ == "Warning: backend at "@ + self.base_url@
                + " is reachable but model enumeration failed, assuming model '"@ + self.model@
                + "' is available"@,
            final(warnings).times() == if r is Some {
                old(warnings).times().insert(self.warning_key_spec(), now)
            } else {
                old(warnings).times()
            },
    {
        match probe {
            Probe::Health(true) => {},
            _ => {
                return None;
            },
        }
        if !warnings.static_last_model_enum_warning_check(self.warning_key().as_str(), now) {
            return None;
        }
        let mut out = "Warning: backend at ".to_owned();
        out.append(self.base_url.as_str());
        out.append(" is reachable but model enumeration failed, assuming model '");
        out.append(self.model.as_str());
        out.append("' is available");
        Some(out)
    }

    /// Decides what follows the reply of an endpoint while the models are being listed. The models
    /// endpoint is asked first, then, if that lists nothing, the tags endpoint, then the health
    /// endpoint, which tells no more than that the backend answers.
    pub fn check_model_availability(&self, probe: Probe) -> (r: ProbeStep)
        ensures
            r.outcome() == probe_outcome(probe),
            r matches ProbeStep::Unreachable(e) ==> (e matches TranslateError::Generic(msg) && msg@
                == "Backend at "@ + self.base_url@ + " is not reachable"@),
    {
        match probe {
            Probe::Models(reply) => {
                if let Some(body) = reply {
                    let names = body.list("data", "id");
                    assert(text::texts(names@).len() == names@.len());
                    if names.len() > 0 {
                        return ProbeStep::Listed(names);
                    }
                }
                ProbeStep::Ask(Endpoint::Tags)
            },
            Probe::Tags(reply) => {
                if let Some(body) = reply {
                    let names = body.list("models", "name");
                    assert(text::texts(names@).len() == names@.len());
                    if names.len() > 0 {
                        return ProbeStep::Listed(names);
                    }
                }
                ProbeStep::Ask(Endpoint::Health)
            },
            Probe::Health(healthy) => {
                if healthy {
                    let none: Vec<String> = Vec::new();
                    assert(text::texts(none@) =~= Seq::empty());
                    ProbeStep::Listed(none)
                } else {
                    ProbeStep::Unreachable(self.unreachable())
                }
            },
        }
    }
}

/// The base URL always has a scheme, and is its own base URL.
pub proof fn law_base_url_has_a_scheme(host: Seq<char>)
    ensures
        text::begins_with(base_url_spec(host), "http://"@) || text::begins_with(
            base_url_spec(host),
            "https://"@,
        ),
        base_url_spec(base_url_spec(host)) == base_url_spec(host),
{
    let url = "http://"@ + host;
    assert(url.take("http://"@.len() as int) == "http://"@);
}

/// A reply is retried exactly where it is a timeout, a failed connection or a failure of the
/// server; authentication failures and missing models are not.
pub proof fn law_what_is_transient(
    reply: ChatReply,
    r: Result<TranslationResult, TranslateError>,
)
    requires
        reply_meaning(reply, r),
    ensures
        (r is Err && r->Err_0.is_transient()) <==> match reply {
            ChatReply::NotSent { timeout, connect, .. } => timeout || connect,
            ChatReply::Status(code) => 500 <= code < 600,
            _ => false,
        },
{
}

/// What is made of a reply says nothing of the provider, its key least of all: any two providers
/// tell the same of one reply.
pub proof fn law_replies_do_not_disclose_the_key(
    reply: ChatReply,
    r1: Result<TranslationResult, TranslateError>,
    r2: Result<TranslationResult, TranslateError>,
)
    requires
        reply_meaning(reply, r1),
        reply_meaning(reply, r2),
    ensures
        r1 is Ok <==> r2 is Ok,
        r1 is Ok ==> r1->Ok_0.text@ == r2->Ok_0.text@,
        r1 is Err ==> r1->Err_0.message_spec() == r2->Err_0.message_spec(),
{
}

/// What is known of the models after an endpoint, when the endpoints reply as given.
pub open spec fn models_known(
    asked: Endpoint,
    models: Option<Json>,
    tags: Option<Json>,
    healthy: bool,
) -> Option<Seq<Seq<char>>>
    decreases
            match asked {
                Endpoint::Models => 2int,
                Endpoint::Tags => 1int,
                Endpoint::Health => 0int,
            },
{
    let probe = match asked {
        Endpoint::Models => Probe::Models(models),
        Endpoint::Tags => Probe::Tags(tags),
        Endpoint::Health => Probe::Health(healthy),
    };
    match probe_outcome(probe) {
        ProbeOutcome::Listed(names) => Some(names),
        ProbeOutcome::Unreachable => None,
        ProbeOutcome::Ask(next) => models_known(next, models, tags, healthy),
    }
}

/// The models endpoint decides if it lists anything, then the tags endpoint; if neither does, a
/// healthy backend counts as one with an empty list, and another one does not answer.
pub proof fn law_order_of_endpoints(models: Option<Json>, tags: Option<Json>, healthy: bool)
    ensures
        models_known(Endpoint::Models, models, tags, healthy) == if models_in(
            Probe::Models(models),
        ).len() > 0 {
            Some(models_in(Probe::Models(models)))
        } else if models_in(Probe::Tags(tags)).len() > 0 {
            Some(models_in(Probe::Tags(tags)))
        } else if healthy {
            Some(Seq::empty())
        } else {
            None
        },
{
    reveal_with_fuel(models_known, 4);
}

} // verus!
