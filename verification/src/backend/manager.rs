//! Keeping a provider at hand: retries, recreation, background checks and health.
//!
//! The network, the clock and the locks are with the caller. What to do next, and what a reply
//! means, is decided here.

use vstd::prelude::*;

use crate::backend::errors::{BackendError, TranslateError, TranslationResult};
use crate::backend::retry::ProviderConfig;
use crate::text;

verus! {

/// What `Vec<String>` looks like under the `Debug` formatting of the standard library: a list in
/// brackets, each string quoted and escaped.
pub uninterp spec fn debug_form(items: Seq<Seq<char>>) -> Seq<char>;

/// `format!` with `{:?}` gives the `Debug` form of a list of strings, which depends on the strings
/// alone.
#[verifier::external_body]
fn debug_list(items: &Vec<String>) -> (r: String)
    ensures
        r@ == debug_form(text::texts(items@)),
{
    format!("{:?}", items)
}

/// What a check of the backend found.
pub enum ModelAvailability {
    /// Backend is reachable and the requested model is available.
    Available,
    /// Backend is reachable but model enumeration failed (assume available).
    EnumerationFailed,
    /// Backend is reachable but model is not in the available list.
    ModelNotFound(Vec<String>),
    /// Backend is completely unreachable.
    Unreachable,
}

/// Whether a backend that offers `offered` serves the model `wanted`: by that name, or by that name
/// with a tag behind a colon.
pub open spec fn serves(offered: Seq<char>, wanted: Seq<char>) -> bool {
    offered == wanted || text::begins_with(offered, wanted + seq![':'])
}

/// Whether one of the models on offer serves.
pub open spec fn some_serves(offered: Seq<Seq<char>>, wanted: Seq<char>) -> bool {
    exists|i: int| 0 <= i < offered.len() && serves(#[trigger] offered[i], wanted)
}

/// The next thing to do for a provider that is being created.
pub enum CreationStep {
    /// Take the provider into use.
    Ready,
    /// Check the backend again after a delay; that will be attempt number `attempt`.
    CheckAfter { delay_ms: u64, attempt: usize },
    /// Give up.
    Failed(TranslateError),
}

/// The next thing to do for a translation.
pub enum TranslateStep {
    /// Send the prompts to the provider at hand; this is attempt number `attempt`.
    Call { attempt: usize },
    /// Send the prompts again after a delay; that will be attempt number `attempt`.
    CallAfter { delay_ms: u64, attempt: usize },
    /// Get hold of the guard of provider creation, but do not wait for longer than `timeout_ms`.
    AcquireGuard { timeout_ms: u64 },
    /// Look again for a provider after a delay.
    LookAgain { delay_ms: u64 },
    /// Create a provider; the guard is held.
    Create,
    /// Answer.
    Finish(Result<TranslationResult, TranslateError>),
}

/// What a translation does with a reply to attempt number `attempt`: it is over, unless the reply
/// is a transient failure and attempts are left.
pub open spec fn reply_settles(
    config: ProviderConfig,
    attempt: int,
    reply: Result<TranslationResult, TranslateError>,
) -> bool {
    reply is Ok || !reply->Err_0.is_transient() || !config.goes_on(attempt)
}

/// Whether a reply leaves the provider in use: a failure that is answered drops it.
pub open spec fn reply_keeps_provider(
    config: ProviderConfig,
    attempt: int,
    reply: Result<TranslationResult, TranslateError>,
) -> bool {
    reply is Ok || !reply_settles(config, attempt, reply)
}

/// How a translation begins.
pub open spec fn first_step(has_provider: bool) -> TranslateStep {
    if has_provider {
        TranslateStep::Call { attempt: 1 }
    } else {
        TranslateStep::AcquireGuard { timeout_ms: 2000 }
    }
}

/// How a translation goes on with the guard of provider creation in hand.
pub open spec fn guarded_step(has_provider: bool) -> TranslateStep {
    if has_provider {
        TranslateStep::Call { attempt: 1 }
    } else {
        TranslateStep::Create
    }
}

/// A provider slot with what it takes to fill it again. If the provider fails, it is dropped, and
/// later requests create another once the backend is back.
pub struct ProviderManager<P> {
    pub provider: Option<P>,
    pub host: String,
    pub model: String,
    pub api_key: Option<String>,
    pub config: ProviderConfig,
    pub shutdown_flag: bool,
}

impl<P> ProviderManager<P> {
    /// Whether two managers differ in their provider alone.
    pub open spec fn same_settings(self, other: Self) -> bool {
        &&& self.host == other.host
        &&& self.model == other.model
        &&& self.api_key == other.api_key
        &&& self.config == other.config
        &&& self.shutdown_flag == other.shutdown_flag
    }

    /// A manager without a provider.
    pub fn new(host: &str, model: &str, api_key: Option<&str>, config: ProviderConfig) -> (r: Self)
        ensures
            r.provider is None,
            r.host@ == host@,
            r.model@ == model@,
            text::opt_text(r.api_key) == text::opt_str(api_key),
            r.config == config,
            !r.shutdown_flag,
    {
        ProviderManager {
            provider: None,
            host: host.to_owned(),
            model: model.to_owned(),
            api_key: match api_key {
                Some(k) => Some(k.to_owned()),
                None => None,
            },
            config,
            shutdown_flag: false,
        }
    }

    /// A manager round a given provider.
    pub fn from_provider(provider: P, config: ProviderConfig) -> (r: Self)
        ensures
            r.provider == Some(provider),
            r.host@.len() == 0,
            r.model@.len() == 0,
            r.api_key is None,
            r.config == config,
            !r.shutdown_flag,
    {
        ProviderManager {
            provider: Some(provider),
            host: String::new(),
            model: String::new(),
            api_key: None,
            config,
            shutdown_flag: false,
        }
    }

    /// The current provider.
    pub fn get_provider(&self) -> (r: Option<&P>)
        ensures
            r matches Some(p) ==> self.provider == Some(*p),
            r is None ==> self.provider is None,
    {
        match &self.provider {
            Some(p) => Some(p),
            None => None,
        }
    }

    /// Judges the models that the backend lists. `None` stands for a backend that does not
    /// answer, an empty list for one that answers but lists nothing.
    pub fn check_model_available(&self, listing: Option<Vec<String>>) -> (r: ModelAvailability)
        ensures
            listing is None ==> r is Unreachable,
            listing matches Some(models) ==> {
                &&& models@.len() == 0 ==> r is EnumerationFailed
                &&& models@.len() > 0 && some_serves(text::texts(models@), self.model@)
                    ==> r is Available
                &&& models@.len() > 0 && !some_serves(text::texts(models@), self.model@)
                    ==> r == ModelAvailability::ModelNotFound(models)
            },
    {
        let models = match listing {
            Some(models) => models,
            None => {
                return ModelAvailability::Unreachable;
            },
        };
        if models.len() == 0 {
            return ModelAvailability::EnumerationFailed;
        }
        let mut tagged = self.model.clone();
        tagged.push(':');
        let ghost offered = text::texts(models@);
        let mut i: usize = 0;
        assert(tagged@ == self.model@ + seq![':']);
        while i < models.len()
            invariant
                i <= models@.len(),
                models@.len() > 0,
                listing == Some(models),
                offered == text::texts(models@),
                tagged@ == self.model@ + seq![':'],
                forall|j: int| 0 <= j < i ==> !serves(#[trigger] offered[j], self.model@),
            decreases models@.len() - i,
        {
            assert(offered[i as int] == models@[i as int]@);
            let m: &str = models[i].as_str();
            if text::same(m, self.model.as_str()) || text::has_prefix(m, tagged.as_str()) {
                assert(serves(offered[i as int], self.model@));
                return ModelAvailability::Available;
            }
            i = i + 1;
        }
        ModelAvailability::ModelNotFound(models)
    }

    /// The interval in seconds at which the backend is checked in the background, if it is.
    pub fn start_rechecker(&self) -> (r: Option<u64>)
        ensures
            r is None <==> self.config.recheck_interval_secs == 0,
            r matches Some(s) ==> s == self.config.recheck_interval_secs,
    {
        if self.config.recheck_interval_secs == 0 {
            None
        } else {
            Some(self.config.recheck_interval_secs)
        }
    }

    /// Tells whether the background check goes on.
    pub fn keeps_rechecking(&self) -> (r: bool)
        ensures
            r == !self.shutdown_flag,
    {
        !self.shutdown_flag
    }

    /// Stops the background check.
    pub fn shutdown(&mut self)
        ensures
            final(self).shutdown_flag,
            final(self).provider == old(self).provider,
            final(self).host == old(self).host,
            final(self).model == old(self).model,
            final(self).api_key == old(self).api_key,
            final(self).config == old(self).config,
    {
        self.shutdown_flag = true;
    }

    /// Tells whether a background check that found `found` is to create a new provider.
    pub fn recheck_model_availability(&self, found: &ModelAvailability) -> (r: bool)
        ensures
            r == (found is Available || found is EnumerationFailed),
    {
        matches!(found, ModelAvailability::Available | ModelAvailability::EnumerationFailed)
    }

    /// The number of the first check of the backend while a provider is being created.
    pub fn first_check(&self) -> (r: usize)
        ensures
            r == 1,
    {
        1
    }

    /// Decides what follows check number `attempt` of the backend while a provider is being
    /// created: a model that is not there is final, a backend that does not answer is tried
    /// again after a delay.
    pub fn create_with_retry(&self, attempt: usize, found: ModelAvailability) -> (r: CreationStep)
        requires
            attempt >= 1,
            found is Unreachable ==> self.config.can_wait(attempt as int),
        ensures
            found is Available || found is EnumerationFailed ==> r is Ready,
            found matches ModelAvailability::ModelNotFound(models) ==> (r matches
                CreationStep::Failed(TranslateError::Backend(BackendError::ModelNotFound(msg)))
                && msg@ == "Model '"@ + self.model@ + "' not available. Available models: "@
                + debug_form(text::texts(models@))),
            found is Unreachable && self.config.goes_on(attempt as int) ==> (r matches
                CreationStep::CheckAfter { delay_ms, attempt: next }
                && delay_ms == self.config.delay_spec(attempt as int) && next == attempt + 1),
            found is Unreachable && !self.config.goes_on(attempt as int) ==> (r matches
                CreationStep::Failed(TranslateError::Generic(msg)) && msg@
                == "Failed to create provider after "@ + text::decimal_spec(
                self.config.max_attempts as nat,
            ) + " attempts. Backend may be unreachable or model '"@ + self.model@
                + "' not available."@),
    {
        match found {
            ModelAvailability::Available | ModelAvailability::EnumerationFailed => {
                CreationStep::Ready
            },
            ModelAvailability::ModelNotFound(models) => {
                let mut msg = "Model '".to_owned();
                msg.append(self.model.as_str());
                msg.append("' not available. Available models: ");
                msg.append(debug_list(&models).as_str());
                CreationStep::Failed(TranslateError::Backend(BackendError::ModelNotFound(msg)))
            },
            ModelAvailability::Unreachable => match self.config.next_delay(attempt) {
                Some(delay_ms) => CreationStep::CheckAfter { delay_ms, attempt: attempt + 1 },
                None => {
                    let mut msg = "Failed to create provider after ".to_owned();
                    msg.append(text::decimal(self.config.max_attempts as u128).as_str());
                    msg.append(" attempts. Backend may be unreachable or model '");
                    msg.append(self.model.as_str());
                    msg.append("' not available.");
                    CreationStep::Failed(TranslateError::Generic(msg))
                },
            },
        }
    }

    /// Takes a provider that was created at the start or by the background check into use, and
    /// tells whether there was one. A failed creation leaves everything as it is.
    pub fn initialize(&mut self, created: Option<P>) -> (r: bool)
        ensures
            r == (created is Some),
            final(self).same_settings(*old(self)),
            created is Some ==> final(self).provider == created,
            created is None ==> final(self).provider == old(self).provider,
    {
        match created {
            Some(p) => {
                self.provider = Some(p);
                true
            },
            None => false,
        }
    }

    fn call_or(&self, otherwise: TranslateStep) -> (r: TranslateStep)
        ensures
            self.provider is Some ==> r == (TranslateStep::Call { attempt: 1 }),
            self.provider is None ==> r == otherwise,
    {
        if self.provider.is_some() {
            TranslateStep::Call { attempt: 1 }
        } else {
            otherwise
        }
    }

    /// How a translation begins: with a call of the provider or, if there is none, with the guard
    /// of provider creation.
    pub fn translate(&self) -> (r: TranslateStep)
        ensures
            r == first_step(self.provider is Some),
    {
        self.call_or(TranslateStep::AcquireGuard { timeout_ms: 2000 })
    }

    /// How it goes on with the guard in hand: another request may have created the provider.
    pub fn guard_acquired(&self) -> (r: TranslateStep)
        ensures
            r == guarded_step(self.provider is Some),
    {
        self.call_or(TranslateStep::Create)
    }

    /// How it goes on if another request holds the guard for too long.
    pub fn guard_timed_out(&self) -> (r: TranslateStep)
        ensures
            r == (TranslateStep::LookAgain { delay_ms: 100 }),
    {
        TranslateStep::LookAgain { delay_ms: 100 }
    }

    /// How it goes on after that: either the other request has created a provider by now or there
    /// is none in time.
    pub fn looked_again(&self) -> (r: TranslateStep)
        ensures
            self.provider is Some ==> r == (TranslateStep::Call { attempt: 1 }),
            self.provider is None ==> (r matches TranslateStep::Finish(
                Err(TranslateError::Generic(msg)),
            ) && msg@ == "Could not create provider in time, backend may be unreachable"@),
    {
        self.call_or(
            TranslateStep::Finish(
                Err(
                    TranslateError::Generic(
                        "Could not create provider in time, backend may be unreachable".to_owned(),
                    ),
                ),
            ),
        )
    }

    /// Takes a provider that a translation has created into use.
    pub fn provider_created(&mut self, provider: P)
        ensures
            final(self).same_settings(*old(self)),
            final(self).provider == Some(provider),
    {
        self.provider = Some(provider);
    }

    /// How a translation goes on once its provider is in use, which another request may have
    /// dropped meanwhile.
    pub fn provider_in_use(&self) -> (r: TranslateStep)
        ensures
            self.provider is Some ==> r == (TranslateStep::Call { attempt: 1 }),
            self.provider is None ==> (r matches TranslateStep::Finish(
                Err(TranslateError::Generic(msg)),
            ) && msg@ == "Provider became unavailable after creation"@),
    {
        self.call_or(
            TranslateStep::Finish(
                Err(
                    TranslateError::Generic(
                        "Provider became unavailable after creation".to_owned(),
                    ),
                ),
            ),
        )
    }

    /// Decides what follows the reply to attempt number `attempt`. Transient failures are tried
    /// again after a delay while attempts are left; any other failure is answered at once. A
    /// failure that is answered drops the provider.
    pub fn replied(
        &mut self,
        attempt: usize,
        reply: Result<TranslationResult, TranslateError>,
    ) -> (r: TranslateStep)
        requires
            attempt >= 1,
            reply is Err && reply->Err_0.is_transient() ==> old(self).config.can_wait(
                attempt as int,
            ),
        ensures
            final(self).same_settings(*old(self)),
            reply_settles(old(self).config, attempt as int, reply) ==> r == TranslateStep::Finish(
                reply,
            ),
            !reply_settles(old(self).config, attempt as int, reply) ==> (r matches
                TranslateStep::CallAfter { delay_ms, attempt: next }
                && delay_ms == old(self).config.delay_spec(attempt as int) && next == attempt + 1),
            reply_keeps_provider(old(self).config, attempt as int, reply) ==> final(self).provider
                == old(self).provider,
            !reply_keeps_provider(old(self).config, attempt as int, reply)
                ==> final(self).provider is None,
    {
        match reply {
            Ok(result) => TranslateStep::Finish(Ok(result)),
            Err(e) => {
                if e.transient() {
                    if let Some(delay_ms) = self.config.next_delay(attempt) {
                        return TranslateStep::CallAfter { delay_ms, attempt: attempt + 1 };
                    }
                }
                self.provider = None;
                TranslateStep::Finish(Err(e))
            },
        }
    }

    /// Tells whether there is a provider to ping.
    pub fn ping(&self) -> (r: Result<(), TranslateError>)
        ensures
            self.provider is Some ==> r is Ok,
            self.provider is None ==> (r matches Err(TranslateError::Generic(msg)) && msg@
                == "No provider available"@),
    {
        if self.provider.is_some() {
            Ok(())
        } else {
            Err(TranslateError::Generic("No provider available".to_owned()))
        }
    }

    /// Takes note of the outcome of a ping: a failure of the backend that is known drops the
    /// provider, unless it is one of the network, which leaves it as any other failure does.
    pub fn pinged(&mut self, outcome: &Result<(), TranslateError>)
        ensures
            final(self).same_settings(*old(self)),
            outcome is Err && outcome->Err_0.is_permanent() ==> final(self).provider is None,
            !(outcome is Err && outcome->Err_0.is_permanent()) ==> final(self).provider == old(
                self,
            ).provider,
    {
        if let Err(e) = outcome {
            if e.permanent() {
                self.provider = None;
            }
        }
    }
}

/// The number of the attempt whose reply is answered, when the attempts from number `attempt` on
/// are replied to with `replies`; `None` while attempts go on.
pub open spec fn answered_attempt(
    config: ProviderConfig,
    attempt: int,
    replies: Seq<Result<TranslationResult, TranslateError>>,
) -> Option<int>
    decreases replies.len(),
{
    if replies.len() == 0 {
        None
    } else if reply_settles(config, attempt, replies.first()) {
        Some(attempt)
    } else {
        answered_attempt(config, attempt + 1, replies.drop_first())
    }
}

/// Whether a check of the backend ends the creation of a provider.
pub open spec fn check_settles(config: ProviderConfig, attempt: int, found: ModelAvailability) -> bool {
    !(found is Unreachable) || !config.goes_on(attempt)
}

/// The number of the check that ends the creation of a provider, when the checks from number
/// `attempt` on find `found`; `None` while they go on.
pub open spec fn final_check(
    config: ProviderConfig,
    attempt: int,
    found: Seq<ModelAvailability>,
) -> Option<int>
    decreases found.len(),
{
    if found.len() == 0 {
        None
    } else if check_settles(config, attempt, found.first()) {
        Some(attempt)
    } else {
        final_check(config, attempt + 1, found.drop_first())
    }
}

proof fn lemma_answered(
    config: ProviderConfig,
    attempt: int,
    replies: Seq<Result<TranslationResult, TranslateError>>,
    k: int,
)
    requires
        attempt >= 1,
        0 <= k < replies.len(),
        forall|j: int|
            0 <= j < k ==> !reply_settles(config, attempt + j, #[trigger] replies[j]),
        reply_settles(config, attempt + k, replies[k]),
    ensures
        answered_attempt(config, attempt, replies) == Some(attempt + k),
    decreases k,
{
    if k > 0 {
        let rest = replies.drop_first();
        assert(!reply_settles(config, attempt + 0, replies[0]));
        assert forall|j: int| 0 <= j < k - 1 implies !reply_settles(
            config,
            attempt + 1 + j,
            #[trigger] rest[j],
        ) by {
            assert(rest[j] == replies[j + 1]);
            assert(!reply_settles(config, attempt + (j + 1), replies[j + 1]));
        }
        lemma_answered(config, attempt + 1, rest, k - 1);
    }
}

/// Transient failures are retried: after `k` of them, fewer than there are attempts, the next reply
/// is answered if it is a success or a failure that is not transient, or if it used up the last
/// attempt. So an authentication failure at the first attempt is answered at once.
pub proof fn law_transient_failures_are_retried(
    config: ProviderConfig,
    replies: Seq<Result<TranslationResult, TranslateError>>,
    k: int,
)
    requires
        0 <= k < replies.len(),
        k < config.attempts(),
        forall|j: int|
            0 <= j < k ==> (#[trigger] replies[j]) is Err && replies[j]->Err_0.is_transient(),
        replies[k] is Ok || !replies[k]->Err_0.is_transient() || k + 1 == config.attempts(),
    ensures
        answered_attempt(config, 1, replies) == Some(k + 1),
{
    assert forall|j: int| 0 <= j < k implies !reply_settles(
        config,
        1 + j,
        #[trigger] replies[j],
    ) by {}
    lemma_answered(config, 1, replies, k);
}

/// A translation makes no more attempts than configured, and one at least; once that many are
/// replied to, it is answered.
pub proof fn law_attempts_are_bounded(
    config: ProviderConfig,
    attempt: int,
    replies: Seq<Result<TranslationResult, TranslateError>>,
)
    requires
        1 <= attempt <= config.attempts(),
    ensures
        answered_attempt(config, attempt, replies) matches Some(n) ==> attempt <= n
            <= config.attempts() && n - attempt < replies.len() && reply_settles(
            config,
            n,
            replies[n - attempt],
        ),
        replies.len() > config.attempts() - attempt ==> answered_attempt(
            config,
            attempt,
            replies,
        ) is Some,
    decreases replies.len(),
{
    if replies.len() > 0 && !reply_settles(config, attempt, replies.first()) {
        let rest = replies.drop_first();
        law_attempts_are_bounded(config, attempt + 1, rest);
        if answered_attempt(config, attempt + 1, rest) is Some {
            let n = answered_attempt(config, attempt + 1, rest)->0;
            assert(rest[n - attempt - 1] == replies[n - attempt]);
        }
    }
}

proof fn lemma_final_check(
    config: ProviderConfig,
    attempt: int,
    found: Seq<ModelAvailability>,
    k: int,
)
    requires
        attempt >= 1,
        0 <= k < found.len(),
        forall|j: int| 0 <= j < k ==> !check_settles(config, attempt + j, #[trigger] found[j]),
        check_settles(config, attempt + k, found[k]),
    ensures
        final_check(config, attempt, found) == Some(attempt + k),
    decreases k,
{
    if k > 0 {
        let rest = found.drop_first();
        assert(!check_settles(config, attempt + 0, found[0]));
        assert forall|j: int| 0 <= j < k - 1 implies !check_settles(
            config,
            attempt + 1 + j,
            #[trigger] rest[j],
        ) by {
            assert(rest[j] == found[j + 1]);
            assert(!check_settles(config, attempt + (j + 1), found[j + 1]));
        }
        lemma_final_check(config, attempt + 1, rest, k - 1);
    }
}

/// A backend that does not answer is checked again: the first answer ends the creation of a
/// provider, and so does the last attempt.
pub proof fn law_unreachable_backend_is_retried(
    config: ProviderConfig,
    found: Seq<ModelAvailability>,
    k: int,
)
    requires
        0 <= k < found.len(),
        k < config.attempts(),
        forall|j: int| 0 <= j < k ==> (#[trigger] found[j]) is Unreachable,
        !(found[k] is Unreachable) || k + 1 == config.attempts(),
    ensures
        final_check(config, 1, found) == Some(k + 1),
{
    assert forall|j: int| 0 <= j < k implies !check_settles(
        config,
        1 + j,
        #[trigger] found[j],
    ) by {}
    lemma_final_check(config, 1, found, k);
}

/// A failure that is answered, transient or not, leaves no provider, and the next translation then
/// goes on to create one. A success, and a failure that is retried, keeps the provider.
pub proof fn law_failure_leads_to_recreation(
    config: ProviderConfig,
    attempt: int,
    reply: Result<TranslationResult, TranslateError>,
)
    ensures
        reply is Ok ==> reply_keeps_provider(config, attempt, reply),
        reply is Err && !reply->Err_0.is_transient() ==> !reply_keeps_provider(
            config,
            attempt,
            reply,
        ),
        reply is Err && attempt >= config.attempts() ==> !reply_keeps_provider(
            config,
            attempt,
            reply,
        ),
        !reply_keeps_provider(config, attempt, reply) ==> first_step(
            reply_keeps_provider(config, attempt, reply),
        ) is AcquireGuard && guarded_step(
            reply_keeps_provider(config, attempt, reply),
        ) is Create,
{
}

/// A model is served under its own name and under its name with any tag, and not under a longer
/// name.
pub proof fn law_model_tags(model: Seq<char>, rest: Seq<char>)
    ensures
        serves(model, model),
        serves(model + seq![':'] + rest, model),
        rest.len() > 0 && rest[0] != ':' ==> !serves(model + rest, model),
{
    let tagged = model + seq![':'] + rest;
    assert(tagged.take((model + seq![':']).len() as int) == model + seq![':']);
    if rest.len() > 0 && rest[0] != ':' {
        let longer = model + rest;
        assert(longer.len() != model.len());
        if text::begins_with(longer, model + seq![':']) {
            assert(longer.take((model.len() + 1) as int)[model.len() as int] == longer[model.len() as int]);
            assert((model + seq![':'])[model.len() as int] == ':');
        }
    }
}

} // verus!
