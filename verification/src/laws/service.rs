//! Laws of the endpoints: what a translation asks of the model, and what it answers.

use vstd::prelude::*;

use crate::args::Args;
use crate::cleanup::{cleaned_spec, removed_spec, replaced_spec};
use crate::formatting::formatted;
use crate::languages::{language_of_code, LangDetect, Language};
use crate::prompt::{
    detection_system_prompt, detection_user_prompt, translation_system_prompt,
    translation_user_prompt,
};
use crate::request::{is_format, params_error, QueryText, TranslateRequest};
use crate::service::{
    detect_error, format_of, item_result, output_for, total_removed, total_replaced, translate_error,
    Source, Translation,
};
use crate::text::opt_text;

verus! {

/// The source language that the model is told is the one the client named or, where it is to be
/// detected, the one that was detected for that very text.
pub proof fn law_source_language_of_a_text(t: Translation, i: int)
    ensures
        t.source matches Source::Known { code, language } ==> t.source_name(i) == language.name@,
        t.source is Auto ==> t.source_name(i) == t.detected@[i].language.name@,
{
}

/// The prompt for a text names the source and the target language by their English names and ends in
/// the text, to the letter.
pub proof fn law_words_of_a_prompt(
    format: Seq<char>,
    source: Seq<char>,
    target: Seq<char>,
    q: Seq<char>,
)
    ensures
        translation_user_prompt("text"@, Some(source), target, q)
            == "Translate the following text from "@ + source + " to "@ + target + ":\n\n"@ + q,
        translation_user_prompt("text"@, None, target, q) == "Translate the following text to "@
            + target + ":\n\n"@ + q,
        translation_user_prompt("html"@, Some(source), target, q)
            == "Translate the following HTML, keeping its markup as it is, from "@ + source
            + " to "@ + target + ":\n\n"@ + q,
        translation_user_prompt("html"@, None, target, q)
            == "Translate the following HTML, keeping its markup as it is, to "@ + target + ":\n\n"@
            + q,
        detection_user_prompt(q) == "Identify the language of the following text:\n\n"@ + q,
        format != "html"@ ==> translation_user_prompt(format, Some(source), target, q)
            == "Translate the following text from "@ + source + " to "@ + target + ":\n\n"@ + q,
        format != "html"@ ==> translation_user_prompt(format, None, target, q)
            == "Translate the following text to "@ + target + ":\n\n"@ + q,
{
    reveal_strlit("text");
    reveal_strlit("html");
    assert("text"@[0] != "html"@[0]);
    let plain = "Translate the following text"@;
    let html = "Translate the following HTML, keeping its markup as it is,"@;
    reveal_strlit("Translate the following text");
    reveal_strlit("Translate the following text from ");
    reveal_strlit("Translate the following text to ");
    reveal_strlit("Translate the following HTML, keeping its markup as it is,");
    reveal_strlit("Translate the following HTML, keeping its markup as it is, from ");
    reveal_strlit("Translate the following HTML, keeping its markup as it is, to ");
    reveal_strlit(" from ");
    reveal_strlit(" to ");
    assert(plain + " from "@ =~= "Translate the following text from "@);
    assert(plain + " to "@ =~= "Translate the following text to "@);
    assert(html + " from "@ =~= "Translate the following HTML, keeping its markup as it is, from "@);
    assert(html + " to "@ =~= "Translate the following HTML, keeping its markup as it is, to "@);
    assert(translation_user_prompt("text"@, Some(source), target, q)
        =~= "Translate the following text from "@ + source + " to "@ + target + ":\n\n"@ + q);
    assert(translation_user_prompt("text"@, None, target, q) =~= "Translate the following text to "@
        + target + ":\n\n"@ + q);
    assert(translation_user_prompt("html"@, Some(source), target, q)
        =~= "Translate the following HTML, keeping its markup as it is, from "@ + source + " to "@
        + target + ":\n\n"@ + q);
    assert(translation_user_prompt("html"@, None, target, q)
        =~= "Translate the following HTML, keeping its markup as it is, to "@ + target + ":\n\n"@ + q);
}

/// Both system prompts make the model an expert linguist, the one for translation and the other for
/// identification, and the second asks for a score from 0 to 100.
pub proof fn law_system_prompts()
    ensures
        translation_system_prompt() == ("You are an expert linguist, specializing in translation. "@
            + "You capture the nuances of the languages you translate and pay attention to gender, "@
            + "number, articles and grammar. Your translations sound natural and keep the meaning of "@
            + "the original text. You answer with the translated text and nothing else."@),
        detection_system_prompt() == (
        "You are an expert linguist, specializing in language identification. "@
            + "You answer with the name of the language in English and a confidence score from 0 to "@
            + "100, separated by a space, and nothing else."@),
{
    lemma_translation_system_prompt();
    lemma_detection_system_prompt();
}

proof fn lemma_translation_system_prompt()
    ensures
        translation_system_prompt() == ("You are an expert linguist, specializing in translation. "@
            + "You capture the nuances of the languages you translate and pay attention to gender, "@
            + "number, articles and grammar. Your translations sound natural and keep the meaning of "@
            + "the original text. You answer with the translated text and nothing else."@),
{
    reveal_strlit("You are an expert linguist, specializing in translation. You capture the nuances of the languages you translate and pay attention to gender, number, articles and grammar. Your translations sound natural and keep the meaning of the original text. You answer with the translated text and nothing else.");
    reveal_strlit("You are an expert linguist, specializing in translation. ");
    reveal_strlit("You capture the nuances of the languages you translate and pay attention to gender, ");
    reveal_strlit("number, articles and grammar. Your translations sound natural and keep the meaning of ");
    reveal_strlit("the original text. You answer with the translated text and nothing else.");
    assert(translation_system_prompt() =~= (
    "You are an expert linguist, specializing in translation. "@
        + "You capture the nuances of the languages you translate and pay attention to gender, "@
        + "number, articles and grammar. Your translations sound natural and keep the meaning of "@
        + "the original text. You answer with the translated text and nothing else."@));
}

proof fn lemma_detection_system_prompt()
    ensures
        detection_system_prompt() == (
        "You are an expert linguist, specializing in language identification. "@
            + "You answer with the name of the language in English and a confidence score from 0 to "@
            + "100, separated by a space, and nothing else."@),
{
    reveal_strlit("You are an expert linguist, specializing in language identification. You answer with the name of the language in English and a confidence score from 0 to 100, separated by a space, and nothing else.");
    reveal_strlit("You are an expert linguist, specializing in language identification. ");
    reveal_strlit("You answer with the name of the language in English and a confidence score from 0 to ");
    reveal_strlit("100, separated by a space, and nothing else.");
    assert(detection_system_prompt() =~= (
    "You are an expert linguist, specializing in language identification. "@
        + "You answer with the name of the language in English and a confidence score from 0 to "@
        + "100, separated by a space, and nothing else."@));
}

/// What goes out for a text is the reply of the model, cleaned unless that is switched off, in the
/// form of the text; or the text itself where there is no reply.
pub proof fn law_output_for_a_text(q: Seq<char>, reply: String)
    ensures
        item_result(q, reply@, true) == formatted(q, cleaned_spec(reply@)),
        item_result(q, reply@, false) == formatted(q, reply@),
        output_for(q, Some(reply), true) == formatted(q, cleaned_spec(reply@)),
        output_for(q, Some(reply), false) == formatted(q, reply@),
        output_for(q, None, true) == q,
        output_for(q, None, false) == q,
{
}

/// The outputs are those for the texts, in order, each from the reply to that very text.
pub proof fn law_outputs(t: Translation, i: int)
    requires
        0 <= i < t.replies@.len(),
    ensures
        t.outputs().len() == t.replies@.len(),
        t.replies@[i] is None ==> t.outputs()[i] == t.q.items()[i],
        t.clean && t.replies@[i] is Some ==> t.outputs()[i] == formatted(
            t.q.items()[i],
            cleaned_spec((t.replies@[i]->0)@),
        ),
        !t.clean && t.replies@[i] is Some ==> t.outputs()[i] == formatted(
            t.q.items()[i],
            (t.replies@[i]->0)@,
        ),
{
}

/// The report on cleaning adds up what was removed and replaced in each reply, and is zero where
/// nothing is cleaned.
pub proof fn law_cleanup_adds_up(replies: Seq<Option<String>>, reply: String)
    ensures
        total_removed(Seq::empty(), true) == 0,
        total_replaced(Seq::empty(), true) == 0,
        total_removed(replies.push(Some(reply)), true) == total_removed(replies, true) + removed_spec(
            reply@,
        ),
        total_replaced(replies.push(Some(reply)), true) == total_replaced(replies, true)
            + replaced_spec(reply@),
        total_removed(replies.push(None), true) == total_removed(replies, true),
        total_replaced(replies.push(None), true) == total_replaced(replies, true),
        total_removed(replies, false) == 0,
        total_replaced(replies, false) == 0,
    decreases replies.len(),
{
    assert(replies.push(Some(reply)).drop_last() =~= replies);
    assert(replies.push(None).drop_last() =~= replies);
    if replies.len() > 0 {
        law_cleanup_adds_up(replies.drop_last(), reply);
    }
}

/// What a translation request is refused for after the checks of every request: its format, its
/// target language, its source language, in this order; and that it is accepted else.
pub proof fn law_refused_translations(body: TranslateRequest, args: Args, languages: Seq<Language>)
    ensures
        ({
            let e = translate_error(body, args, languages);
            let checks = params_error(
                body,
                args,
                seq![("source"@, opt_text(body.source)), ("target"@, opt_text(body.target))],
            );
            let format = match body.format {
                Some(f) => f@,
                None => "text"@,
            };
            let source = (body.source->0)@;
            let target = (body.target->0)@;
            let format_ok = format == "text"@ || format == "html"@;
            let target_ok = language_of_code(languages, target) is Some;
            let source_ok = source == "auto"@ || language_of_code(languages, source) is Some;
            &&& checks is Some ==> e == checks
            &&& checks is None && !format_ok ==> e == Some(
                ("Invalid format. Supported formats: text, html"@, 400u16),
            )
            &&& checks is None && format_ok && !target_ok ==> e == Some(
                (target + " is not supported"@, 400u16),
            )
            &&& checks is None && format_ok && target_ok && !source_ok ==> e == Some(
                (source + " is not supported"@, 400u16),
            )
            &&& checks is None && format_ok && target_ok && source_ok ==> e is None
            &&& format_of(body) == format
            &&& is_format(format) <==> format_ok
        }),
{
}

/// What a detection request is refused for: what every request is checked for and, where the model is
/// to detect, the lack of a provider.
pub proof fn law_refused_detections(body: TranslateRequest, args: Args, has_provider: bool)
    ensures
        ({
            let e = detect_error(body, args, has_provider);
            let checks = params_error(body, args, Seq::empty());
            &&& checks is Some ==> e == checks
            &&& checks is None && args.llm_detect && !has_provider ==> e == Some(
                ("Provider manager not available; cannot use LLM detection"@, 500u16),
            )
            &&& checks is None && (has_provider || !args.llm_detect) ==> e is None
        }),
{
}

/// Each text is detected first, where that is asked for, and then translated, until every text is
/// dealt with; where the client names one language as source and target there is nothing to do.
pub proof fn law_what_is_next(t: Translation)
    requires
        t.wf(),
    ensures
        t.count() == t.q.items().len(),
        t.is_same() <==> (t.source matches Source::Known { code, language } && code@ == t.target@),
        t.is_done() <==> t.replies@.len() == t.q.items().len(),
        t.is_same() ==> t.is_done(),
        t.q.items().len() > 0,
        t.replies@.len() <= t.q.items().len(),
        t.source is Auto ==> t.replies@.len() <= t.detected@.len() <= t.replies@.len() + 1
            && t.detected@.len() <= t.q.items().len(),
        !(t.source is Auto) ==> t.detected@.len() == 0,
        t.replies@.len() < t.q.items().len() && t.source is Auto && t.detected@.len()
            == t.replies@.len() <==> t.wants_detection(),
        t.replies@.len() < t.q.items().len() && (t.source is Auto ==> t.detected@.len()
            > t.replies@.len()) <==> t.wants_translation(),
        forall|i: int|
            0 <= i < t.replies@.len() ==> ((#[trigger] t.replies@[i]) is None <==> t.is_same()),
{
}

/// Two translations of one request differ in their progress alone.
pub proof fn law_same_request(t: Translation, u: Translation)
    ensures
        t.same_request(u) <==> t.q == u.q && t.source == u.source && t.target == u.target
            && t.target_language == u.target_language && t.format == u.format && t.clean == u.clean
            && t.alternatives == u.alternatives && t.report_cleanup == u.report_cleanup,
{
}

} // verus!
