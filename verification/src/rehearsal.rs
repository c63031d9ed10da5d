//! A whole request and its response, for outcomes that are known beforehand.

use vstd::prelude::*;

use crate::args::Args;
use crate::backend::TranslationResult;
use crate::cleanup::{cleaned_spec, removed_spec, replaced_spec};
use crate::error_response::ErrorResponse;
use crate::formatting::formatted;
use crate::languages::{language_of_code, LangDetect, Language};
use crate::prompt::{translation_system_prompt, translation_user_prompt, Prompt};
use crate::request::TranslateRequest;
use crate::service::{
    format_of, translate, translate_error, Alternatives, DetectedLanguage, Source, TranslateResponse,
    Work,
};

verus! {

/// What a translation asks of the model, and what it answers.
pub struct Rehearsal<'a> {
    pub prompts: Vec<Prompt>,
    pub response: TranslateResponse<'a>,
}

/// Whether the client names one language as source and as target.
pub open spec fn names_one_language(body: TranslateRequest) -> bool {
    (body.source->0)@ != "auto"@ && (body.source->0)@ == (body.target->0)@
}

/// The name of the source language of text number `i`: of the language that the client names or, on
/// `auto`, of the one that was found for the text.
pub open spec fn source_language(
    body: TranslateRequest,
    languages: Seq<Language>,
    found: Seq<LangDetect>,
    i: int,
) -> Seq<char> {
    if (body.source->0)@ == "auto"@ {
        found[i].language.name@
    } else {
        (language_of_code(languages, (body.source->0)@)->0).name@
    }
}

/// Carries a translation out where it is known what the detector finds and what the model replies
/// for each text, in order. `None` stands for a translation that lacks an outcome.
pub fn rehearse<'a>(
    body: TranslateRequest,
    args: &Args,
    languages: &'a [Language],
    found: &Vec<LangDetect<'a>>,
    replies: &Vec<String>,
) -> (r: Result<Option<Rehearsal<'a>>, ErrorResponse>)
    ensures
        match translate_error(body, *args, languages@) {
            Some((message, status)) => r matches Err(e) && e.says(message, status),
            None => r matches Ok(outcome) && {
                let texts = body.q->0.items();
                let auto = (body.source->0)@ == "auto"@;
                let enough = names_one_language(body) || (replies@.len() >= texts.len() && (auto
                    ==> found@.len() >= texts.len()));
                &&& outcome is Some <==> enough
                &&& outcome matches Some(o) ==> {
                    let told = o.response.translated_text;
                    &&& told is Batch <==> body.q->0 is Batch
                    &&& told.items().len() == texts.len()
                    &&& names_one_language(body) ==> o.prompts@.len() == 0 && told.items() == texts
                    &&& !names_one_language(body) ==> o.prompts@.len() == texts.len() && forall|i: int|
                        0 <= i < texts.len() ==> {
                            &&& (#[trigger] o.prompts@[i]).system@ == translation_system_prompt()
                            &&& o.prompts@[i].user@ == translation_user_prompt(
                                format_of(body),
                                Some(source_language(body, languages@, found@, i)),
                                (language_of_code(languages@, (body.target->0)@)->0).name@,
                                texts[i],
                            )
                            &&& told.items()[i] == formatted(
                                texts[i],
                                if args.disable_cleanup {
                                    replies@[i]@
                                } else {
                                    cleaned_spec(replies@[i]@)
                                },
                            )
                        }
                    &&& o.response.detected_language is Some <==> auto
                    &&& o.response.detected_language matches Some(DetectedLanguage::Single(d))
                        ==> body.q->0 is Single && d == found@[0]
                    &&& o.response.detected_language matches Some(DetectedLanguage::Batch(ds))
                        ==> body.q->0 is Batch && ds@ == found@.take(texts.len() as int)
                    &&& o.response.alternatives is Some <==> body.alternatives is Some
                        && body.alternatives->0 > 0
                    &&& o.response.alternatives matches Some(Alternatives::Single(list))
                        ==> list@.len() == 0
                    &&& o.response.alternatives matches Some(Alternatives::Batch(lists))
                        ==> lists@.len() == texts.len()
                    &&& o.response.cleanup is Some <==> body.enable_cleanup_reporting == Some(true)
                    &&& (o.response.cleanup is Some && texts.len() == 1 && !names_one_language(body)
                        && !args.disable_cleanup) ==> {
                        &&& (o.response.cleanup->0).removed == removed_spec(replies@[0]@)
                        &&& (o.response.cleanup->0).replaced == replaced_spec(replies@[0]@)
                    }
                }
            },
        },
{
    let ghost request = body;
    let mut t = match translate(body, args, languages) {
        Ok(t) => t,
        Err(e) => {
            return Err(e);
        },
    };
    let ghost texts = request.q->0.items();
    let ghost auto = (request.source->0)@ == "auto"@;
    let ghost begun = t;
    let mut prompts: Vec<Prompt> = Vec::new();
    loop
        invariant
            t.wf(),
            t.same_request(begun),
            request == body,
            texts == begun.q.items(),
            request.q == Some(begun.q),
            translate_error(request, *args, languages@) is None,
            auto == ((request.source->0)@ == "auto"@),
            begun.source is Auto <==> auto,
            begun.source matches Source::Known { code, language } ==> code@ == (request.source->0)@
                && language_of_code(languages@, code@) == Some(*language),
            begun.target@ == (request.target->0)@,
            language_of_code(languages@, begun.target@) == Some(*begun.target_language),
            begun.format@ == format_of(request),
            begun.clean == !args.disable_cleanup,
            begun.alternatives == (request.alternatives is Some && request.alternatives->0 > 0),
            begun.report_cleanup == (request.enable_cleanup_reporting == Some(true)),
            names_one_language(request) <==> begun.is_same(),
            names_one_language(request) ==> prompts@.len() == 0,
            !names_one_language(request) ==> prompts@.len() == t.replies@.len(),
            !names_one_language(request) ==> t.replies@.len() <= replies@.len(),
            t.detected@.len() <= found@.len(),
            auto ==> t.detected@ == found@.take(t.detected@.len() as int),
            !names_one_language(request) ==> forall|i: int|
                0 <= i < t.replies@.len() ==> (#[trigger] t.replies@[i] matches Some(x) && x@
                    == replies@[i]@),
            !names_one_language(request) ==> forall|i: int|
                0 <= i < prompts@.len() ==> (#[trigger] prompts@[i]).system@
                    == translation_system_prompt() && prompts@[i].user@ == translation_user_prompt(
                    format_of(request),
                    Some(source_language(request, languages@, found@, i)),
                    (language_of_code(languages@, (request.target->0)@)->0).name@,
                    texts[i],
                ),
        decreases t.work_left(),
    {
        match t.next() {
            Work::Detect { index } => {
                if index >= found.len() {
                    assert(found@.len() < texts.len());
                    return Ok(None);
                }
                let d: LangDetect<'a> = found[index];
                t.detected(d);
                assert(t.detected@ =~= found@.take(t.detected@.len() as int));
            },
            Work::Translate { index, prompt } => {
                if index >= replies.len() {
                    assert(replies@.len() < texts.len());
                    return Ok(None);
                }
                let given = TranslationResult {
                    text: replies[index].clone(),
                    backend_timings: None,
                };
                if let Err(e) = t.translated(Ok(given)) {
                    return Err(e);
                }
                prompts.push(prompt);
            },
            Work::Done => {
                let response = t.response();
                proof {
                    let out = t.outputs();
                    if names_one_language(request) {
                        crate::service::law_same_source_and_target(t);
                    } else {
                        assert forall|i: int| 0 <= i < texts.len() implies out[i] == formatted(
                            #[trigger] texts[i],
                            if args.disable_cleanup {
                                replies@[i]@
                            } else {
                                cleaned_spec(replies@[i]@)
                            },
                        ) by {
                            assert(t.replies@[i] is Some);
                        }
                        if texts.len() == 1 && t.clean {
                            let all = t.replies@;
                            crate::laws::service::law_cleanup_adds_up(Seq::empty(), all[0]->0);
                            assert(all =~= Seq::<Option<String>>::empty().push(Some(all[0]->0)));
                            assert(all[0] is Some);
                        }
                    }
                }
                return Ok(Some(Rehearsal { prompts, response }));
            },
        }
    }
}

} // verus!
