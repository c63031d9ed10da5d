//! The prompts that are put to the model.

use vstd::prelude::*;

use crate::text;

verus! {

/// A system and a user prompt.
#[derive(Debug)]
pub struct Prompt {
    pub system: String,
    pub user: String,
}

/// Collects what a translation prompt depends on.
pub struct PromptBuilder {
    pub format: String,
    pub source_language: Option<String>,
    pub target_language: String,
}

/// The user prompt of a translation. It names the format if that is HTML and the source language
/// if that is known, and it ends in the text itself.
pub open spec fn translation_user_prompt(
    format: Seq<char>,
    source: Option<Seq<char>>,
    target: Seq<char>,
    q: Seq<char>,
) -> Seq<char> {
    let opening = if format == "html"@ {
        "Translate the following HTML, keeping its markup as it is,"@
    } else {
        "Translate the following text"@
    };
    let from = match source {
        Some(s) => " from "@ + s,
        None => Seq::empty(),
    };
    opening + from + " to "@ + target + ":\n\n"@ + q
}

/// The system prompt of a translation.
pub open spec fn translation_system_prompt() -> Seq<char> {
    "You are an expert linguist, specializing in translation. You capture the nuances of the languages you translate and pay attention to gender, number, articles and grammar. Your translations sound natural and keep the meaning of the original text. You answer with the translated text and nothing else."@
}

/// The system prompt of a language detection.
pub open spec fn detection_system_prompt() -> Seq<char> {
    "You are an expert linguist, specializing in language identification. You answer with the name of the language in English and a confidence score from 0 to 100, separated by a space, and nothing else."@
}

/// The user prompt of a language detection. It ends in the text itself.
pub open spec fn detection_user_prompt(q: Seq<char>) -> Seq<char> {
    "Identify the language of the following text:\n\n"@ + q
}

impl PromptBuilder {
    /// A builder for plain text without languages.
    pub fn new() -> (r: Self)
        ensures
            r.format@ == "text"@,
            r.source_language is None,
            r.target_language@.len() == 0,
    {
        PromptBuilder {
            format: "text".to_owned(),
            source_language: None,
            target_language: String::new(),
        }
    }

    /// Sets the format of the text, `text` or `html`.
    pub fn set_format(&mut self, format: &str)
        ensures
            final(self).format@ == format@,
            final(self).source_language == old(self).source_language,
            final(self).target_language == old(self).target_language,
    {
        self.format = format.to_owned();
    }

    /// Sets the source language, by its name in English.
    pub fn set_source_language(&mut self, name: &str)
        ensures
            final(self).format == old(self).format,
            final(self).source_language matches Some(s) && s@ == name@,
            final(self).target_language == old(self).target_language,
    {
        self.source_language = Some(name.to_owned());
    }

    /// Sets the target language, by its name in English.
    pub fn set_target_language(&mut self, name: &str)
        ensures
            final(self).format == old(self).format,
            final(self).source_language == old(self).source_language,
            final(self).target_language@ == name@,
    {
        self.target_language = name.to_owned();
    }

    /// The prompts that ask for the translation of `q`.
    pub fn build(&self, q: &String) -> (r: Prompt)
        ensures
            r.system@ == translation_system_prompt(),
            r.user@ == translation_user_prompt(
                self.format@,
                text::opt_text(self.source_language),
                self.target_language@,
                q@,
            ),
    {
        let mut user = if text::same(self.format.as_str(), "html") {
            "Translate the following HTML, keeping its markup as it is,".to_owned()
        } else {
            "Translate the following text".to_owned()
        };
        let ghost opening = user@;
        if let Some(source) = &self.source_language {
            user.append(" from ");
            user.append(source.as_str());
            assert(user@ == opening + (" from "@ + source@));
        } else {
            assert(user@ == opening + Seq::<char>::empty());
        }
        user.append(" to ");
        user.append(self.target_language.as_str());
        user.append(":\n\n");
        user.append(q.as_str());
        Prompt {
            system:
                "You are an expert linguist, specializing in translation. You capture the nuances of the languages you translate and pay attention to gender, number, articles and grammar. Your translations sound natural and keep the meaning of the original text. You answer with the translated text and nothing else.".to_owned(),
            user,
        }
    }

    /// The prompts that ask for the language of `q`.
    pub fn build_detect_prompt(&self, q: &str) -> (r: Prompt)
        ensures
            r.system@ == detection_system_prompt(),
            r.user@ == detection_user_prompt(q@),
    {
        let mut user = "Identify the language of the following text:\n\n".to_owned();
        user.append(q);
        Prompt {
            system:
                "You are an expert linguist, specializing in language identification. You answer with the name of the language in English and a confidence score from 0 to 100, separated by a space, and nothing else.".to_owned(),
            user,
        }
    }
}

/// A translation prompt holds the target language and, at its end, the whole text.
pub proof fn law_prompt_holds_text_and_target(
    format: Seq<char>,
    source: Option<Seq<char>>,
    target: Seq<char>,
    q: Seq<char>,
)
    ensures
        ({
            let user = translation_user_prompt(format, source, target, q);
            let at = user.len() - q.len() - ":\n\n"@.len() - target.len();
            &&& at >= 0
            &&& user.skip(user.len() - q.len()) == q
            &&& user.subrange(at, at + target.len()) == target
        }),
{
    let user = translation_user_prompt(format, source, target, q);
    let at = user.len() - q.len() - ":\n\n"@.len() - target.len();
    assert(user.skip(user.len() - q.len()) == q);
    assert(user.subrange(at, at + target.len()) == target);
}

} // verus!
