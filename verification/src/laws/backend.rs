//! Laws of the backend: errors, retries, replies and models.

use vstd::prelude::*;

use crate::backend::errors::{
    public_message, status_of, BackendError, TranslateError, TranslationResult,
};
use crate::backend::json::{member_of, texts_under, Json};
use crate::backend::manager::{
    check_settles, first_step, guarded_step, reply_keeps_provider, reply_settles, serves, some_serves,
    ModelAvailability, ProviderManager, TranslateStep,
};
use crate::backend::openai::{
    base_url_spec, models_in, probe_outcome, reply_meaning, ChatReply, CompletionResponse, Endpoint,
    OpenAiProvider, Probe, ProbeOutcome, ProbeStep,
};
use crate::backend::retry::ProviderConfig;
use crate::backend::warnings::{may_warn, times_of};
use crate::text::{decimal_spec, texts};

verus! {

/// What an error says, for the log, and what a client is told of it. Of an HTTP error that is the
/// status code, of a failure of the network nothing.
pub proof fn law_words_of_errors(status: u16, msg: String)
    ensures
        BackendError::Http(status).message_spec() == "Backend HTTP error "@ + decimal_spec(
            status as nat,
        ),
        BackendError::ModelNotFound(msg).message_spec() == msg@,
        BackendError::Other(msg).message_spec() == msg@,
        BackendError::Retryable(msg).message_spec() == msg@,
        TranslateError::Backend(BackendError::Http(status)).message_spec() == "Backend HTTP error "@
            + decimal_spec(status as nat),
        TranslateError::Backend(BackendError::Other(msg)).message_spec() == msg@,
        TranslateError::Backend(BackendError::ModelNotFound(msg)).message_spec() == msg@,
        TranslateError::Backend(BackendError::Retryable(msg)).message_spec() == msg@,
        TranslateError::Generic(msg).message_spec() == msg@,
        public_message(TranslateError::Backend(BackendError::Http(status))) == "Backend returned "@
            + decimal_spec(status as nat),
        public_message(TranslateError::Backend(BackendError::ModelNotFound(msg))) == msg@,
        public_message(TranslateError::Backend(BackendError::Retryable(msg)))
            == "Backend temporarily unavailable"@,
        public_message(TranslateError::Backend(BackendError::Other(msg))) == "Backend error"@,
        public_message(TranslateError::Generic(msg)) == msg@,
{
}

/// The status that each error goes out under.
pub proof fn law_status_of_errors(status: u16, msg: String)
    ensures
        status == 401 ==> status_of(TranslateError::Backend(BackendError::Http(status))) == 403,
        status == 404 ==> status_of(TranslateError::Backend(BackendError::Http(status))) == 404,
        status != 401 && status != 404 ==> status_of(
            TranslateError::Backend(BackendError::Http(status)),
        ) == 503,
        status_of(TranslateError::Backend(BackendError::ModelNotFound(msg))) == 404,
        status_of(TranslateError::Backend(BackendError::Retryable(msg))) == 503,
        status_of(TranslateError::Backend(BackendError::Other(msg))) == 500,
        status_of(TranslateError::Generic(msg)) == 503,
{
}

/// Failures of the network and of the server may pass, no others; a failure that the backend itself
/// gave ends a provider that was pinged.
pub proof fn law_what_may_pass(status: u16, msg: String)
    ensures
        TranslateError::Backend(BackendError::Http(status)).is_transient() <==> 500 <= status <= 599,
        TranslateError::Backend(BackendError::Retryable(msg)).is_transient(),
        !TranslateError::Backend(BackendError::ModelNotFound(msg)).is_transient(),
        !TranslateError::Backend(BackendError::Other(msg)).is_transient(),
        !TranslateError::Generic(msg).is_transient(),
        TranslateError::Backend(BackendError::Http(status)).is_permanent(),
        TranslateError::Backend(BackendError::ModelNotFound(msg)).is_permanent(),
        TranslateError::Backend(BackendError::Other(msg)).is_permanent(),
        !TranslateError::Backend(BackendError::Retryable(msg)).is_permanent(),
        !TranslateError::Generic(msg).is_permanent(),
{
}

/// Attempts go on until the configured number is reached, and there is one at least.
pub proof fn law_number_of_attempts(config: ProviderConfig, attempt: int)
    ensures
        config.goes_on(attempt) <==> attempt < config.max_attempts,
        config.max_attempts >= 1 ==> config.attempts() == config.max_attempts,
        config.max_attempts == 0 ==> config.attempts() == 1,
        config.can_wait(attempt) <==> (attempt < config.max_attempts ==> config.delay_spec(attempt)
            <= 0xffff_ffff_ffff_ffff),
{
}

/// A success is answered and keeps the provider; a failure that may pass is tried again, with the
/// same provider, while attempts are left; every other failure is answered and drops the provider.
pub proof fn law_replies_to_a_translation(
    config: ProviderConfig,
    attempt: int,
    t: TranslationResult,
    status: u16,
    msg: String,
)
    ensures
        reply_settles(config, attempt, Ok(t)),
        reply_keeps_provider(config, attempt, Ok(t)),
        attempt < config.max_attempts ==> {
            let again = Err(TranslateError::Backend(BackendError::Retryable(msg)));
            !reply_settles(config, attempt, again) && reply_keeps_provider(config, attempt, again)
        },
        attempt < config.max_attempts && 500 <= status <= 599 ==> {
            let again = Err(TranslateError::Backend(BackendError::Http(status)));
            !reply_settles(config, attempt, again) && reply_keeps_provider(config, attempt, again)
        },
        attempt >= config.max_attempts ==> {
            let last = Err(TranslateError::Backend(BackendError::Retryable(msg)));
            reply_settles(config, attempt, last) && !reply_keeps_provider(config, attempt, last)
        },
        attempt >= config.max_attempts || !(500 <= status <= 599) ==> {
            let last = Err(TranslateError::Backend(BackendError::Http(status)));
            reply_settles(config, attempt, last) && !reply_keeps_provider(config, attempt, last)
        },
        reply_settles(config, attempt, Err(TranslateError::Generic(msg))),
        !reply_keeps_provider(config, attempt, Err(TranslateError::Generic(msg))),
        reply_settles(config, attempt, Err(TranslateError::Backend(BackendError::Other(msg)))),
        !reply_keeps_provider(config, attempt, Err(TranslateError::Backend(BackendError::Other(msg)))),
        reply_settles(config, attempt, Err(TranslateError::Backend(BackendError::ModelNotFound(msg)))),
        !reply_keeps_provider(
            config,
            attempt,
            Err(TranslateError::Backend(BackendError::ModelNotFound(msg))),
        ),
{
}

/// With a provider at hand a translation calls it, at its first attempt. Without one it goes to the
/// guard, for two seconds at most, and creates one under it.
pub proof fn law_how_a_translation_begins()
    ensures
        first_step(true) == (TranslateStep::Call { attempt: 1 }),
        first_step(false) == (TranslateStep::AcquireGuard { timeout_ms: 2000 }),
        guarded_step(true) == (TranslateStep::Call { attempt: 1 }),
        guarded_step(false) == TranslateStep::Create,
{
}

/// The creation of a provider goes on exactly while the backend does not answer and attempts are
/// left.
pub proof fn law_checks_of_the_backend(
    config: ProviderConfig,
    attempt: int,
    models: Vec<String>,
)
    ensures
        check_settles(config, attempt, ModelAvailability::Available),
        check_settles(config, attempt, ModelAvailability::EnumerationFailed),
        check_settles(config, attempt, ModelAvailability::ModelNotFound(models)),
        check_settles(config, attempt, ModelAvailability::Unreachable) <==> attempt
            >= config.max_attempts,
{
}

/// A model serves for another where it has the same name, or that name, a colon and a tag. One that
/// serves is enough.
pub proof fn law_which_model_serves(
    offered: Seq<char>,
    wanted: Seq<char>,
    others: Seq<Seq<char>>,
)
    ensures
        serves(offered, wanted) <==> {
            ||| offered == wanted
            ||| {
                &&& offered.len() > wanted.len()
                &&& offered[wanted.len() as int] == ':'
                &&& forall|i: int| 0 <= i < wanted.len() ==> #[trigger] offered[i] == wanted[i]
            }
        },
        !some_serves(Seq::empty(), wanted),
        some_serves(others.push(offered), wanted) <==> some_serves(others, wanted) || serves(
            offered,
            wanted,
        ),
{
    let tagged = wanted + seq![':'];
    let n = wanted.len() as int;
    if offered.len() > n {
        let front = offered.take(n + 1);
        if front == tagged {
            assert(front[n] == ':');
            assert forall|i: int| 0 <= i < n implies #[trigger] offered[i] == wanted[i] by {
                assert(front[i] == tagged[i]);
            }
        }
        if offered[n] == ':' && forall|i: int| 0 <= i < n ==> #[trigger] offered[i] == wanted[i] {
            assert(front =~= tagged);
        }
    }
    let all = others.push(offered);
    if some_serves(others, wanted) {
        let i = choose|i: int| 0 <= i < others.len() && serves(#[trigger] others[i], wanted);
        assert(all[i] == others[i]);
    }
    if serves(offered, wanted) {
        assert(all[others.len() as int] == offered);
    }
    if some_serves(all, wanted) {
        let i = choose|i: int| 0 <= i < all.len() && serves(#[trigger] all[i], wanted);
        if i < others.len() {
            assert(all[i] == others[i]);
        }
    }
}

/// The translation is the content of the first choice, character for character, line breaks and
/// all; without a first choice or without content there is none.
pub proof fn law_completions(
    body: CompletionResponse,
    r: Result<TranslationResult, TranslateError>,
)
    requires
        reply_meaning(ChatReply::Completion(body), r),
    ensures
        body.choices@.len() > 0 ==> (body.choices@[0].message.content matches Some(c) ==> (r matches Ok(
            t,
        ) && t.text@.len() == c@.len() && forall|i: int|
            0 <= i < c@.len() ==> #[trigger] t.text@[i] == c@[i])),
        body.choices@.len() > 0 && body.choices@[0].message.content is None || body.choices@.len() == 0
            ==> (r matches Err(TranslateError::Backend(BackendError::Other(msg))) && msg@
            == "Empty response from backend"@),
{
}

/// What is made of a request that got no completion: a timeout or a failed connection can be tried
/// again, a status is told as it is, and what cannot be read is an error of its own.
pub proof fn law_failed_requests(
    timeout: bool,
    connect: bool,
    detail: String,
    code: u16,
    r: Result<TranslationResult, TranslateError>,
)
    ensures
        reply_meaning(ChatReply::NotSent { timeout, connect, detail }, r) ==> r is Err && (if timeout
            || connect {
            r->Err_0 == TranslateError::Backend(BackendError::Retryable(detail))
        } else {
            r->Err_0 == TranslateError::Generic(detail)
        }),
        reply_meaning(ChatReply::Status(code), r) ==> r == Err::<TranslationResult, TranslateError>(
            TranslateError::Backend(BackendError::Http(code)),
        ),
        reply_meaning(ChatReply::Unreadable, r) ==> (r matches Err(
            TranslateError::Backend(BackendError::Other(msg)),
        ) && msg@ == "Failed to parse backend response as JSON"@),
{
}

/// The models are the ids under `data`, or the names under `models`. An endpoint that lists some
/// settles the matter; else the next is asked, and the last tells whether the backend answers.
pub proof fn law_endpoints(body: Json, healthy: bool)
    ensures
        models_in(Probe::Models(Some(body))) == body.listed("data"@, "id"@),
        models_in(Probe::Tags(Some(body))) == body.listed("models"@, "name"@),
        models_in(Probe::Models(None)).len() == 0,
        models_in(Probe::Tags(None)).len() == 0,
        body.listed("data"@, "id"@).len() > 0 ==> probe_outcome(Probe::Models(Some(body)))
            == ProbeOutcome::Listed(body.listed("data"@, "id"@)),
        body.listed("data"@, "id"@).len() == 0 ==> probe_outcome(Probe::Models(Some(body)))
            == ProbeOutcome::Ask(Endpoint::Tags),
        probe_outcome(Probe::Models(None)) == ProbeOutcome::Ask(Endpoint::Tags),
        body.listed("models"@, "name"@).len() > 0 ==> probe_outcome(Probe::Tags(Some(body)))
            == ProbeOutcome::Listed(body.listed("models"@, "name"@)),
        body.listed("models"@, "name"@).len() == 0 ==> probe_outcome(Probe::Tags(Some(body)))
            == ProbeOutcome::Ask(Endpoint::Health),
        probe_outcome(Probe::Tags(None)) == ProbeOutcome::Ask(Endpoint::Health),
        probe_outcome(Probe::Health(true)) == ProbeOutcome::Listed(Seq::empty()),
        probe_outcome(Probe::Health(false)) == ProbeOutcome::Unreachable,
{
}

/// A step is told by what it is: the endpoint to ask, or the names as they are listed.
pub proof fn law_steps(endpoint: Endpoint, names: Vec<String>, e: TranslateError)
    ensures
        ProbeStep::Ask(endpoint).outcome() == ProbeOutcome::Ask(endpoint),
        ProbeStep::Listed(names).outcome() == ProbeOutcome::Listed(texts(names@)),
        ProbeStep::Unreachable(e).outcome() == ProbeOutcome::Unreachable,
{
}

/// What a request does to the provider leaves host, model, key, configuration and shutdown as they
/// are.
pub proof fn law_settings_stay<P>(a: ProviderManager<P>, b: ProviderManager<P>)
    ensures
        a.same_settings(b) <==> a.host == b.host && a.model == b.model && a.api_key == b.api_key
            && a.config == b.config && a.shutdown_flag == b.shutdown_flag,
{
}

/// A member of an object is the first one of its name, to the letter.
pub proof fn law_members(
    a: Seq<(String, Json)>,
    entry: (String, Json),
    b: Seq<(String, Json)>,
    key: Seq<char>,
)
    ensures
        member_of(Seq::empty(), key) is None,
        entry.0@ == key ==> member_of(seq![entry], key) == Some(entry.1),
        entry.0@ != key ==> member_of(seq![entry], key) is None,
        member_of(a, key) is Some ==> member_of(a + b, key) == member_of(a, key),
        member_of(a, key) is None ==> member_of(a + b, key) == member_of(b, key),
    decreases a.len(),
{
    assert(seq![entry].drop_first() =~= Seq::<(String, Json)>::empty());
    assert(member_of(Seq::<(String, Json)>::empty(), key) is None);
    if a.len() == 0 {
        assert(a + b =~= b);
    } else {
        assert((a + b).first() == a.first());
        assert((a + b).drop_first() =~= a.drop_first() + b);
        law_members(a.drop_first(), entry, b, key);
    }
}

/// The listed texts are those under the name in each object of the array, in order and unchanged;
/// whatever has no text there is passed over.
pub proof fn law_listed_texts(items: Seq<Json>, item: Json, key: Seq<char>)
    ensures
        texts_under(Seq::empty(), key).len() == 0,
        item.text_under(key) matches Some(t) ==> texts_under(items.push(item), key) == texts_under(
            items,
            key,
        ).push(t),
        item.text_under(key) is None ==> texts_under(items.push(item), key) == texts_under(items, key),
{
    assert(items.push(item).drop_last() =~= items);
}

/// Where texts and lists are found in a value.
pub proof fn law_json_values(
    members: Vec<(String, Json)>,
    items: Vec<Json>,
    t: String,
    flag: bool,
    list: Seq<char>,
    name: Seq<char>,
)
    ensures
        Json::Object(members).member_spec(name) == member_of(members@, name),
        Json::Array(items).member_spec(name) is None,
        Json::Text(t).member_spec(name) is None,
        Json::Null.member_spec(name) is None,
        Json::Bool(flag).member_spec(name) is None,
        Json::Number(t).member_spec(name) is None,
        member_of(members@, name) == Some(Json::Text(t)) ==> Json::Object(members).text_under(name)
            == Some(t@),
        !(member_of(members@, name) is Some && member_of(members@, name)->0 is Text) ==> Json::Object(
            members,
        ).text_under(name) is None,
        member_of(members@, list) == Some(Json::Array(items)) ==> Json::Object(members).listed(
            list,
            name,
        ) == texts_under(items@, name),
        !(member_of(members@, list) is Some && member_of(members@, list)->0 is Array) ==> Json::Object(
            members,
        ).listed(list, name).len() == 0,
{
}

/// A host with a scheme is its own URL, and one without gets `http://` before it.
pub proof fn law_urls(rest: Seq<char>, host: Seq<char>)
    ensures
        base_url_spec("http://"@ + rest) == "http://"@ + rest,
        base_url_spec("https://"@ + rest) == "https://"@ + rest,
        base_url_spec(host) == host || base_url_spec(host) == "http://"@ + host,
        base_url_spec(host) == host ==> {
            ||| exists|r: Seq<char>| host == #[trigger] ("http://"@ + r)
            ||| exists|r: Seq<char>| host == #[trigger] ("https://"@ + r)
        },
{
    reveal_strlit("http://");
    reveal_strlit("https://");
    assert(("http://"@ + rest).take(7) =~= "http://"@);
    assert(("https://"@ + rest).take(8) =~= "https://"@);
    if base_url_spec(host) == host {
        if crate::text::begins_with(host, "http://"@) {
            assert(host =~= "http://"@ + host.skip(7));
        } else if crate::text::begins_with(host, "https://"@) {
            assert(host =~= "https://"@ + host.skip(8));
        } else {
            assert(base_url_spec(host).len() == host.len() + 7);
        }
    }
}

/// Warnings are told apart by URL and model, with a colon between them.
pub proof fn law_keys_of_warnings(p: OpenAiProvider, q: OpenAiProvider)
    ensures
        p.warning_key_spec() == p.base_url@ + ":"@ + p.model@,
        p.base_url@ == q.base_url@ && p.model@ == q.model@ ==> p.warning_key_spec()
            == q.warning_key_spec(),
{
}

/// The time of a warning is the last one noted under its key. A key without a time may be warned of;
/// one with a time only ten seconds later.
pub proof fn law_times_of_warnings(
    entries: Seq<(String, u64)>,
    key: String,
    time: u64,
    now: u64,
    times: Map<Seq<char>, u64>,
)
    ensures
        times_of(Seq::empty()) == Map::<Seq<char>, u64>::empty(),
        times_of(entries.push((key, time))) == times_of(entries).insert(key@, time),
        !times.contains_key(key@) ==> may_warn(times, key@, now),
        times.contains_key(key@) ==> (may_warn(times, key@, now) <==> now - times[key@]
            >= 10_000_000_000),
{
    assert(entries.push((key, time)).drop_last() =~= entries);
}

} // verus!
