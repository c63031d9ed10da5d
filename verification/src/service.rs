//! The endpoints of the service: what a request is answered.
//!
//! A translation is carried out step by step. The caller asks what to do next, does it, and hands
//! the outcome back.

use vstd::prelude::*;

use crate::args::Args;
use crate::backend::{map_translation_error, TranslateError, TranslationResult};
use crate::cleanup::cleanup_output;
use crate::detection::{create_detector, Detector};
use crate::error_response::ErrorResponse;
use crate::formatting::improve_formatting;
use crate::languages::{get_language_from_code, LangDetect, Language};
use crate::prompt::{Prompt, PromptBuilder};
use crate::request::{check_format, check_params, QueryText, TranslateRequest};
use crate::text;

verus! {

/// The source language of a request.
pub enum Source<'a> {
    /// To be detected, text by text.
    Auto,
    /// Given by the client, under this code.
    Known { code: String, language: &'a Language },
}

/// The alternatives of a response, which are there for compatibility and always empty.
#[derive(Debug)]
pub enum Alternatives {
    Single(Vec<String>),
    Batch(Vec<Vec<String>>),
}

/// The detected language of a response, or the languages of its texts.
pub enum DetectedLanguage<'a> {
    Single(LangDetect<'a>),
    Batch(Vec<LangDetect<'a>>),
}

/// How many characters cleaning took away and replaced, over all texts.
#[derive(Debug)]
pub struct CleanupReport {
    pub removed: u128,
    pub replaced: u128,
}

/// The response to a translation request.
pub struct TranslateResponse<'a> {
    pub translated_text: QueryText,
    pub alternatives: Option<Alternatives>,
    pub detected_language: Option<DetectedLanguage<'a>>,
    pub cleanup: Option<CleanupReport>,
}

/// A translation that is under way.
pub struct Translation<'a> {
    pub q: QueryText,
    pub source: Source<'a>,
    /// The code under which the client asked for the target language.
    pub target: String,
    pub target_language: &'a Language,
    pub format: String,
    /// Whether model output is cleaned.
    pub clean: bool,
    /// Whether the response lists alternatives.
    pub alternatives: bool,
    /// Whether the response reports on cleaning.
    pub report_cleanup: bool,
    /// The languages that were detected so far.
    pub detected: Vec<LangDetect<'a>>,
    /// The output of the model for the texts so far; `None` for a text that is not translated
    /// because the client named one language as source and as target.
    pub replies: Vec<Option<String>>,
}

/// The next thing to do for a translation.
pub enum Work {
    /// Detect the language of text number `index`.
    Detect { index: usize },
    /// Put the prompts for text number `index` to the backend.
    Translate { index: usize, prompt: Prompt },
    /// Respond.
    Done,
}

/// What goes out for the text `q` when the model gives `reply`.
pub open spec fn item_result(q: Seq<char>, reply: Seq<char>, clean: bool) -> Seq<char> {
    crate::formatting::formatted(
        q,
        if clean {
            crate::cleanup::cleaned_spec(reply)
        } else {
            reply
        },
    )
}

/// What goes out for the text `q`: itself if it was not translated.
pub open spec fn output_for(q: Seq<char>, reply: Option<String>, clean: bool) -> Seq<char> {
    match reply {
        Some(t) => item_result(q, t@, clean),
        None => q,
    }
}

/// The characters that cleaning takes away, over all replies.
pub open spec fn total_removed(replies: Seq<Option<String>>, clean: bool) -> nat
    decreases replies.len(),
{
    if replies.len() == 0 {
        0
    } else {
        total_removed(replies.drop_last(), clean) + if clean && replies.last() is Some {
            crate::cleanup::removed_spec((replies.last()->0)@)
        } else {
            0
        }
    }
}

/// The characters that cleaning replaces, over all replies.
pub open spec fn total_replaced(replies: Seq<Option<String>>, clean: bool) -> nat
    decreases replies.len(),
{
    if replies.len() == 0 {
        0
    } else {
        total_replaced(replies.drop_last(), clean) + if clean && replies.last() is Some {
            crate::cleanup::replaced_spec((replies.last()->0)@)
        } else {
            0
        }
    }
}

impl QueryText {
    /// Translated texts in the shape of the request: a list for a list, a string for a string.
    pub fn shaped_translated_text(&self, translated_texts: Vec<String>) -> (r: QueryText)
        ensures
            self is Batch ==> r == QueryText::Batch(translated_texts),
            self is Single && translated_texts@.len() > 0 ==> (r matches QueryText::Single(t) && t@
                == translated_texts@[0]@),
            self is Single && translated_texts@.len() == 0 ==> (r matches QueryText::Single(t)
                && t@.len() == 0),
    {
        if self.is_batch() {
            QueryText::Batch(translated_texts)
        } else if translated_texts.len() > 0 {
            QueryText::Single(translated_texts[0].clone())
        } else {
            QueryText::Single(String::new())
        }
    }

    /// Empty alternatives in the shape of the request: an empty list for every text of a list, one
    /// empty list for a string.
    pub fn shaped_empty_alternatives(&self) -> (r: Alternatives)
        ensures
            self is Batch ==> (r matches Alternatives::Batch(lists) && lists@.len()
                == self.items().len() && forall|i: int|
                0 <= i < lists@.len() ==> (#[trigger] lists@[i])@.len() == 0),
            self is Single ==> (r matches Alternatives::Single(list) && list@.len() == 0),
    {
        if self.is_batch() {
            let n: usize = self.as_slice().len();
            let mut lists: Vec<Vec<String>> = Vec::new();
            let mut i: usize = 0;
            while i < n
                invariant
                    i <= n,
                    lists@.len() == i,
                    forall|j: int| 0 <= j < lists@.len() ==> (#[trigger] lists@[j])@.len() == 0,
                decreases n - i,
            {
                lists.push(Vec::new());
                i = i + 1;
            }
            Alternatives::Batch(lists)
        } else {
            Alternatives::Single(Vec::new())
        }
    }
}

/// The error of a translation request, with its status, if it has one. After the checks that every
/// request undergoes come the format, the target language and the source language.
pub open spec fn translate_error(
    body: TranslateRequest,
    args: Args,
    languages: Seq<Language>,
) -> Option<(Seq<char>, u16)> {
    let required = seq![
        ("source"@, text::opt_text(body.source)),
        ("target"@, text::opt_text(body.target)),
    ];
    let source = (body.source->0)@;
    let target = (body.target->0)@;
    if crate::request::params_error(body, args, required) is Some {
        crate::request::params_error(body, args, required)
    } else if !crate::request::is_format(format_of(body)) {
        Some(("Invalid format. Supported formats: text, html"@, 400))
    } else if crate::languages::language_of_code(languages, target) is None {
        Some((target + " is not supported"@, 400))
    } else if source != "auto"@ && crate::languages::language_of_code(languages, source) is None {
        Some((source + " is not supported"@, 400))
    } else {
        None
    }
}

/// The format of a request.
pub open spec fn format_of(body: TranslateRequest) -> Seq<char> {
    match body.format {
        Some(f) => f@,
        None => "text"@,
    }
}

fn unsupported(code: &str) -> (r: ErrorResponse)
    ensures
        r.says(code@ + " is not supported"@, 400),
{
    let mut error = code.to_owned();
    error.append(" is not supported");
    ErrorResponse { error, status: 400 }
}

/// Begins the translation that a request asks for. Where the client names one language as source
/// and as target, there is nothing to do.
pub fn translate<'a>(body: TranslateRequest, args: &Args, languages: &'a [Language]) -> (r: Result<
    Translation<'a>,
    ErrorResponse,
>)
    ensures
        match translate_error(body, *args, languages@) {
            Some((message, status)) => r matches Err(e) && e.says(message, status),
            None => r matches Ok(t) && {
                &&& t.wf()
                &&& Some(t.q) == body.q
                &&& t.source is Auto <==> (body.source->0)@ == "auto"@
                &&& t.source matches Source::Known { code, language } ==> code@ == (
                body.source->0)@ && crate::languages::language_of_code(languages@, code@) == Some(
                    *language,
                )
                &&& t.target@ == (body.target->0)@
                &&& crate::languages::language_of_code(languages@, t.target@) == Some(
                    *t.target_language,
                )
                &&& t.format@ == format_of(body)
                &&& t.clean == !args.disable_cleanup
                &&& t.alternatives == (body.alternatives is Some && body.alternatives->0 > 0)
                &&& t.report_cleanup == (body.enable_cleanup_reporting == Some(true))
                &&& t.detected@.len() == 0
                &&& t.replies@.len() == if (body.source->0)@ == (body.target->0)@
                    && !(t.source is Auto) {
                    t.q.items().len()
                } else {
                    0
                }
            },
        },
{
    {
        let required: [(&str, &Option<String>); 2] = [
            ("source", &body.source),
            ("target", &body.target),
        ];
        proof {
            assert(crate::request::params_view(required@) =~= seq![
                ("source"@, text::opt_text(body.source)),
                ("target"@, text::opt_text(body.target)),
            ]);
            if crate::request::params_error(
                body,
                *args,
                crate::request::params_view(required@),
            ) is None {
                let p = crate::request::params_view(required@);
                crate::request::law_valid_request(body, *args, p);
                assert(!crate::request::is_missing(p[0].1));
                assert(!crate::request::is_missing(p[1].1));
            }
        }
        if let Err(e) = check_params(&body, args, &required) {
            return Err(e);
        }
    }
    let q = body.q.unwrap();
    let source_code = body.source.unwrap();
    let target = body.target.unwrap();
    let format = match body.format {
        Some(f) => f,
        None => "text".to_owned(),
    };
    if let Err(e) = check_format(format.as_str()) {
        return Err(e);
    }
    let target_language: &'a Language = match get_language_from_code(languages, target.as_str()) {
        Some(l) => l,
        None => {
            return Err(unsupported(target.as_str()));
        },
    };
    let auto: bool = text::same(source_code.as_str(), "auto");
    let same: bool = !auto && text::same(source_code.as_str(), target.as_str());
    let source: Source<'a> = if auto {
        Source::Auto
    } else {
        match get_language_from_code(languages, source_code.as_str()) {
            Some(language) => Source::Known { code: source_code, language },
            None => {
                return Err(unsupported(source_code.as_str()));
            },
        }
    };
    let n: usize = q.as_slice().len();
    let mut replies: Vec<Option<String>> = Vec::new();
    if same {
        let mut i: usize = 0;
        while i < n
            invariant
                i <= n,
                replies@.len() == i,
                forall|j: int| 0 <= j < i ==> (#[trigger] replies@[j]) is None,
            decreases n - i,
        {
            replies.push(None);
            i = i + 1;
        }
    }
    let alternatives: bool = match body.alternatives {
        Some(v) => v > 0,
        None => false,
    };
    let report_cleanup: bool = match body.enable_cleanup_reporting {
        Some(v) => v,
        None => false,
    };
    Ok(
        Translation {
            q,
            source,
            target,
            target_language,
            format,
            clean: !args.disable_cleanup,
            alternatives,
            report_cleanup,
            detected: Vec::new(),
            replies,
        },
    )
}

impl<'a> Translation<'a> {
    /// The number of texts.
    pub open spec fn count(self) -> nat {
        self.q.items().len()
    }

    /// Whether the client named one language as source and as target.
    pub open spec fn is_same(self) -> bool {
        self.source matches Source::Known { code, .. } && code@ == self.target@
    }

    /// The name of the source language of text number `i`.
    pub open spec fn source_name(self, i: int) -> Seq<char> {
        match self.source {
            Source::Known { language, .. } => language.name@,
            Source::Auto => self.detected@[i].language.name@,
        }
    }

    /// Texts are dealt with in order, each after the detection of its language where that is asked
    /// for. There are no replies exactly where the client named one language as source and as
    /// target.
    pub open spec fn wf(self) -> bool {
        &&& self.count() > 0
        &&& self.replies@.len() <= self.count()
        &&& forall|i: int|
            0 <= i < self.replies@.len() ==> ((#[trigger] self.replies@[i]) is None
                <==> self.is_same())
        &&& self.source is Auto ==> {
            &&& self.replies@.len() <= self.detected@.len() <= self.replies@.len() + 1
            &&& self.detected@.len() <= self.count()
        }
        &&& !(self.source is Auto) ==> self.detected@.len() == 0
        &&& self.is_same() ==> self.replies@.len() == self.count()
    }

    /// Whether every text is dealt with.
    pub open spec fn is_done(self) -> bool {
        self.replies@.len() == self.count()
    }

    /// Whether the language of a text has to be detected next.
    pub open spec fn wants_detection(self) -> bool {
        !self.is_done() && self.source is Auto && self.detected@.len() == self.replies@.len()
    }

    /// Whether a text has to be translated next.
    pub open spec fn wants_translation(self) -> bool {
        !self.is_done() && !self.wants_detection()
    }

    /// How many steps are left at most: two for every text whose language is to be detected, one
    /// fewer for a text whose language is known.
    pub open spec fn work_left(self) -> int {
        2 * (self.count() - self.replies@.len()) - if self.source is Auto {
            self.detected@.len() - self.replies@.len()
        } else {
            0
        }
    }

    /// Whether two translations are of the same request.
    pub open spec fn same_request(self, other: Self) -> bool {
        &&& self.q == other.q
        &&& self.source == other.source
        &&& self.target == other.target
        &&& self.target_language == other.target_language
        &&& self.format == other.format
        &&& self.clean == other.clean
        &&& self.alternatives == other.alternatives
        &&& self.report_cleanup == other.report_cleanup
    }

    /// The texts that go out.
    pub open spec fn outputs(self) -> Seq<Seq<char>> {
        Seq::new(
            self.replies@.len(),
            |i: int| output_for(self.q.items()[i], self.replies@[i], self.clean),
        )
    }

    /// What to do next. Where the client named one language as source and as target, nothing is put
    /// to the backend.
    pub fn next(&self) -> (r: Work)
        requires
            self.wf(),
        ensures
            self.is_done() <==> r is Done,
            self.wants_detection() ==> (r matches Work::Detect { index } && index
                == self.replies@.len()),
            self.wants_translation() ==> (r matches Work::Translate { index, prompt } && {
                &&& index == self.replies@.len()
                &&& !self.is_same()
                &&& prompt.system@ == crate::prompt::translation_system_prompt()
                &&& prompt.user@ == crate::prompt::translation_user_prompt(
                    self.format@,
                    Some(self.source_name(index as int)),
                    self.target_language.name@,
                    self.q.items()[index as int],
                )
                &&& self.source matches Source::Known { language: named, .. } ==> prompt.user@
                    == crate::prompt::translation_user_prompt(
                    self.format@,
                    Some(named.name@),
                    self.target_language.name@,
                    self.q.items()[index as int],
                )
                &&& self.source is Auto ==> prompt.user@ == crate::prompt::translation_user_prompt(
                    self.format@,
                    Some(self.detected@[index as int].language.name@),
                    self.target_language.name@,
                    self.q.items()[index as int],
                )
            }),
    {
        let items = self.q.as_slice();
        let index: usize = self.replies.len();
        if index == items.len() {
            return Work::Done;
        }
        let source_name: &'static str = match &self.source {
            Source::Auto => {
                if self.detected.len() == index {
                    return Work::Detect { index };
                }
                self.detected[index].language.name
            },
            Source::Known { language, .. } => language.name,
        };
        let mut pb = PromptBuilder::new();
        pb.set_format(self.format.as_str());
        pb.set_target_language(self.target_language.name);
        pb.set_source_language(source_name);
        assert(self.q.items()[index as int] == items@[index as int]@);
        Work::Translate { index, prompt: pb.build(&items[index]) }
    }

    /// Takes note of the language of the next text. The text is put to the backend even if that is
    /// the target language, so that a client can have a text improved in its own language.
    pub fn detected(&mut self, found: LangDetect<'a>)
        requires
            old(self).wf(),
            old(self).wants_detection(),
        ensures
            final(self).wf(),
            final(self).same_request(*old(self)),
            0 <= final(self).work_left() < old(self).work_left(),
            final(self).detected@ == old(self).detected@.push(found),
            final(self).replies@ == old(self).replies@,
            final(self).wants_translation(),
    {
        self.detected.push(found);
    }

    /// Takes note of what the backend gave for the next text. A failure is what the whole request
    /// is answered with.
    pub fn translated(&mut self, reply: Result<TranslationResult, TranslateError>) -> (r: Result<
        (),
        ErrorResponse,
    >)
        requires
            old(self).wf(),
            old(self).wants_translation(),
        ensures
            final(self).wf(),
            final(self).same_request(*old(self)),
            final(self).detected@ == old(self).detected@,
            reply matches Ok(t) ==> r is Ok && final(self).replies@ == old(self).replies@.push(
                Some(t.text),
            ),
            reply is Ok ==> 0 <= final(self).work_left() < old(self).work_left(),
            reply matches Err(e) ==> final(self).replies@ == old(self).replies@ && (r matches Err(
                answer,
            ) && answer.says(
                crate::backend::errors::public_message(e),
                crate::backend::errors::status_of(e),
            )),
    {
        match reply {
            Ok(t) => {
                self.replies.push(Some(t.text));
                proof {
                    let before = *old(self);
                    assert forall|i: int| 0 <= i < self.replies@.len() implies ((
                    #[trigger] self.replies@[i]) is None <==> self.is_same()) by {
                        if i < before.replies@.len() {
                            assert(self.replies@[i] == before.replies@[i]);
                        }
                    }
                }
                Ok(())
            },
            Err(e) => Err(map_translation_error(e)),
        }
    }

    /// The response, once every text is dealt with.
    pub fn response(&self) -> (r: TranslateResponse<'a>)
        requires
            self.wf(),
            self.is_done(),
        ensures
            r.translated_text.items() == self.outputs(),
            r.translated_text is Batch <==> self.q is Batch,
            r.alternatives is Some <==> self.alternatives,
            r.alternatives matches Some(Alternatives::Single(list)) ==> self.q is Single
                && list@.len() == 0,
            r.alternatives matches Some(Alternatives::Batch(lists)) ==> self.q is Batch
                && lists@.len() == self.count() && forall|i: int|
                0 <= i < lists@.len() ==> (#[trigger] lists@[i])@.len() == 0,
            r.detected_language is Some <==> self.source is Auto,
            r.detected_language matches Some(DetectedLanguage::Single(d)) ==> self.q is Single && d
                == self.detected@[0],
            r.detected_language matches Some(DetectedLanguage::Batch(ds)) ==> self.q is Batch && ds@
                == self.detected@,
            r.cleanup is Some <==> self.report_cleanup,
            r.cleanup matches Some(c) ==> c.removed == total_removed(self.replies@, self.clean)
                && c.replaced == total_replaced(self.replies@, self.clean),
    {
        let items = self.q.as_slice();
        let ghost all = self.q.items();
        let n: usize = items.len();
        let mut out: Vec<String> = Vec::new();
        let mut removed: u128 = 0;
        let mut replaced: u128 = 0;
        let mut i: usize = 0;
        while i < n
            invariant
                i <= n,
                n == items@.len(),
                n == self.replies@.len(),
                text::texts(items@) == all,
                all == self.q.items(),
                out@.len() == i,
                forall|j: int|
                    0 <= j < i ==> (#[trigger] out@[j])@ == output_for(
                        all[j],
                        self.replies@[j],
                        self.clean,
                    ),
                removed == total_removed(self.replies@.take(i as int), self.clean),
                replaced == total_replaced(self.replies@.take(i as int), self.clean),
                removed <= i * 0xffff_ffff_ffff_ffff,
                replaced <= i * 0xffff_ffff_ffff_ffff,
            decreases n - i,
        {
            proof {
                let next = self.replies@.take(i + 1);
                assert(next.drop_last() == self.replies@.take(i as int));
                assert(next.last() == self.replies@[i as int]);
                assert(all[i as int] == items@[i as int]@);
            }
            match &self.replies[i] {
                None => {
                    out.push(items[i].clone());
                },
                Some(reply) => {
                    if self.clean {
                        let c = cleanup_output(reply.as_str());
                        assert(c.removed <= 0xffff_ffff_ffff_ffff);
                        assert(c.replaced <= 0xffff_ffff_ffff_ffff);
                        assert(i * 0xffff_ffff_ffff_ffff + c.removed <= u128::MAX);
                        assert(i * 0xffff_ffff_ffff_ffff + c.replaced <= u128::MAX);
                        removed = removed + c.removed as u128;
                        replaced = replaced + c.replaced as u128;
                        out.push(improve_formatting(items[i].as_str(), c.cleaned.as_str()));
                    } else {
                        out.push(improve_formatting(items[i].as_str(), reply.as_str()));
                    }
                },
            }
            i = i + 1;
        }
        proof {
            assert(self.replies@.take(n as int) == self.replies@);
            assert(text::texts(out@) =~= self.outputs());
            if self.q is Single {
                assert(self.outputs() =~= seq![out@[0]@]);
            }
        }
        TranslateResponse {
            translated_text: self.q.shaped_translated_text(out),
            alternatives: if self.alternatives {
                Some(self.q.shaped_empty_alternatives())
            } else {
                None
            },
            detected_language: match &self.source {
                Source::Auto => if self.q.is_batch() {
                    Some(DetectedLanguage::Batch(copied(&self.detected)))
                } else {
                    Some(DetectedLanguage::Single(self.detected[0]))
                },
                Source::Known { .. } => None,
            },
            cleanup: if self.report_cleanup {
                Some(CleanupReport { removed, replaced })
            } else {
                None
            },
        }
    }
}

fn copied<'a>(v: &Vec<LangDetect<'a>>) -> (r: Vec<LangDetect<'a>>)
    ensures
        r@ == v@,
{
    let mut out: Vec<LangDetect<'a>> = Vec::new();
    let mut i: usize = 0;
    while i < v.len()
        invariant
            i <= v@.len(),
            out@ == v@.take(i as int),
        decreases v@.len() - i,
    {
        out.push(v[i]);
        i = i + 1;
    }
    out
}

/// The error of a detection request, with its status, if it has one.
pub open spec fn detect_error(body: TranslateRequest, args: Args, has_provider: bool) -> Option<
    (Seq<char>, u16),
> {
    if crate::request::params_error(body, args, Seq::empty()) is Some {
        crate::request::params_error(body, args, Seq::empty())
    } else if args.llm_detect && !has_provider {
        Some(("Provider manager not available; cannot use LLM detection"@, 500))
    } else {
        None
    }
}

/// Begins the detection that a request asks for: the detector to put its texts to.
pub fn detect(body: &TranslateRequest, args: &Args, has_provider: bool) -> (r: Result<
    Detector,
    ErrorResponse,
>)
    ensures
        match detect_error(*body, *args, has_provider) {
            Some((message, status)) => r matches Err(e) && e.says(message, status),
            None => body.q is Some && (r matches Ok(d) && (d is Llm <==> args.llm_detect)),
        },
{
    let none: [(&str, &Option<String>); 0] = [];
    assert(crate::request::params_view(none@) =~= Seq::empty());
    if let Err(e) = check_params(body, args, &none) {
        return Err(e);
    }
    if args.llm_detect && !has_provider {
        return Err(
            ErrorResponse {
                error: "Provider manager not available; cannot use LLM detection".to_owned(),
                status: 500,
            },
        );
    }
    Ok(create_detector(args))
}

/// A detected language as a client is told of it.
#[derive(Clone, Copy, Debug)]
pub struct DetectedEntry {
    pub language: &'static str,
    pub confidence: i32,
}

/// The answer to a detection request, which goes out as a list: one entry for each text, in order,
/// with the code under which clients know the language.
pub fn detect_response(q: &QueryText, found: Vec<LangDetect>) -> (r: Vec<DetectedEntry>)
    requires
        found@.len() == q.items().len(),
    ensures
        r@.len() == q.items().len(),
        forall|i: int|
            0 <= i < r@.len() ==> (#[trigger] r@[i]).language@ == found@[i].language.code@
                && r@[i].confidence == found@[i].confidence,
{
    let mut out: Vec<DetectedEntry> = Vec::new();
    let mut i: usize = 0;
    while i < found.len()
        invariant
            i <= found@.len(),
            out@.len() == i,
            forall|j: int|
                0 <= j < i ==> (#[trigger] out@[j]).language@ == found@[j].language.code@
                    && out@[j].confidence == found@[j].confidence,
        decreases found@.len() - i,
    {
        out.push(
            DetectedEntry { language: found[i].language.code, confidence: found[i].confidence },
        );
        i = i + 1;
    }
    out
}

/// What the service says of itself.
#[derive(Debug)]
pub struct HealthReport {
    pub status: &'static str,
    pub service: &'static str,
    pub version: String,
}

/// The answer of the health endpoint of the service.
pub fn health(version: &str) -> (r: HealthReport)
    ensures
        r.status@ == "ok"@,
        r.service@ == "ltengine"@,
        r.version@ == version@,
{
    HealthReport { status: "ok", service: "ltengine", version: version.to_owned() }
}

/// What the service says of its backend, with the HTTP status it goes out under.
#[derive(Debug)]
pub struct BackendHealth {
    pub http_status: u16,
    pub status: &'static str,
    pub backend: String,
}

/// The answer of the health endpoint of the backend, after a ping.
pub fn backend_health(ping: &Result<(), TranslateError>) -> (r: BackendHealth)
    ensures
        ping is Ok ==> r.http_status == 200 && r.status@ == "ok"@ && r.backend@
            == "Backend is reachable"@,
        ping matches Err(e) ==> r.http_status == 503 && r.status@ == "error"@ && r.backend@
            == e.message_spec(),
{
    match ping {
        Ok(_) => BackendHealth {
            http_status: 200,
            status: "ok",
            backend: "Backend is reachable".to_owned(),
        },
        Err(e) => BackendHealth { http_status: 503, status: "error", backend: e.message() },
    }
}

/// A language as the frontend is told of it.
#[derive(Debug)]
pub struct FrontendLanguage {
    pub code: &'static str,
    pub name: &'static str,
}

/// The settings of the frontend.
#[derive(Debug)]
pub struct FrontendSettings {
    pub api_keys: bool,
    pub char_limit: usize,
    pub files_translation: bool,
    pub frontend_timeout: u32,
    pub key_required: bool,
    pub source: FrontendLanguage,
    pub target: FrontendLanguage,
    pub suggestions: bool,
    pub supported_files_format: Vec<String>,
}

/// The settings that the frontend is given.
pub fn get_frontend_settings(args: &Args) -> (r: FrontendSettings)
    ensures
        !r.api_keys,
        r.char_limit == args.char_limit,
        !r.files_translation,
        r.frontend_timeout == 1000,
        !r.key_required,
        r.source.code@ == "auto"@,
        r.source.name@ == "Auto Detect"@,
        r.target.code@ == "en"@,
        r.target.name@ == "English"@,
        !r.suggestions,
        r.supported_files_format@.len() == 0,
{
    FrontendSettings {
        api_keys: false,
        char_limit: args.char_limit,
        files_translation: false,
        frontend_timeout: 1000,
        key_required: false,
        source: FrontendLanguage { code: "auto", name: "Auto Detect" },
        target: FrontendLanguage { code: "en", name: "English" },
        suggestions: false,
        supported_files_format: Vec::new(),
    }
}

/// Where the source language is to be detected, every text goes out as the backend rewrote it, even
/// one that is in the target language.
pub proof fn law_detected_texts_are_translated(t: Translation, i: int)
    requires
        t.wf(),
        t.source is Auto,
        0 <= i < t.replies@.len(),
    ensures
        t.replies@[i] is Some,
        t.outputs()[i] == item_result(t.q.items()[i], (t.replies@[i]->0)@, t.clean),
{
}

/// Where the client names one language as source and as target, there is nothing to ask the
/// backend, and the response holds the texts of the request.
pub proof fn law_same_source_and_target(t: Translation)
    requires
        t.wf(),
        t.is_same(),
    ensures
        t.is_done(),
        !t.wants_translation(),
        t.outputs() == t.q.items(),
{
    assert forall|i: int| 0 <= i < t.count() implies t.outputs()[i] == t.q.items()[i] by {
        assert(t.replies@[i] is None);
    }
    assert(t.outputs() =~= t.q.items());
}

/// A finished translation has one text for each text of the request, and one detected language
/// for each where languages were to be detected.
pub proof fn law_one_output_per_text(t: Translation)
    requires
        t.wf(),
        t.is_done(),
    ensures
        t.outputs().len() == t.q.items().len(),
        t.source is Auto ==> t.detected@.len() == t.q.items().len(),
        t.work_left() == 0,
{
}

/// A translation that is not finished wants exactly one thing, and has work left.
pub proof fn law_unfinished_work(t: Translation)
    requires
        t.wf(),
        !t.is_done(),
    ensures
        t.wants_detection() <==> !t.wants_translation(),
        t.work_left() > 0,
{
}

} // verus!
