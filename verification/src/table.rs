//! The languages of the service.

use vstd::prelude::*;

use crate::detection::{edges_are_parenthetical, has_edges, has_parenthesis, inside};
use crate::detection::{detection_spec, is_trimmed_name, label_spec, match_spec, names_are_trimmed};
use crate::detection::{law_plain_responses_match_anywhere, law_without_a_score_all_is_the_label};
use crate::languages::{language_of_code, Language};
use crate::text;
use crate::text::Edge;

verus! {

/// The languages on offer, as source and as target.
pub open spec fn known() -> Seq<Language> {
    seq![
        Language { code: "en", name: "English", internal_code: "en" },
        Language { code: "sq", name: "Albanian", internal_code: "sq" },
        Language { code: "ar", name: "Arabic", internal_code: "ar" },
        Language { code: "az", name: "Azerbaijani", internal_code: "az" },
        Language { code: "eu", name: "Basque", internal_code: "eu" },
        Language { code: "bn", name: "Bengali", internal_code: "bn" },
        Language { code: "bg", name: "Bulgarian", internal_code: "bg" },
        Language { code: "ca", name: "Catalan", internal_code: "ca" },
        Language { code: "zh-Hans", name: "Chinese", internal_code: "zh" },
        Language { code: "zh-Hant", name: "Chinese (traditional)", internal_code: "zt" },
        Language { code: "cs", name: "Czech", internal_code: "cs" },
        Language { code: "da", name: "Danish", internal_code: "da" },
        Language { code: "nl", name: "Dutch", internal_code: "nl" },
        Language { code: "eo", name: "Esperanto", internal_code: "eo" },
        Language { code: "et", name: "Estonian", internal_code: "et" },
        Language { code: "fi", name: "Finnish", internal_code: "fi" },
        Language { code: "fr", name: "French", internal_code: "fr" },
        Language { code: "gl", name: "Galician", internal_code: "gl" },
        Language { code: "de", name: "German", internal_code: "de" },
        Language { code: "el", name: "Greek", internal_code: "el" },
        Language { code: "he", name: "Hebrew", internal_code: "he" },
        Language { code: "hi", name: "Hindi", internal_code: "hi" },
        Language { code: "hu", name: "Hungarian", internal_code: "hu" },
        Language { code: "id", name: "Indonesian", internal_code: "id" },
        Language { code: "ga", name: "Irish", internal_code: "ga" },
        Language { code: "it", name: "Italian", internal_code: "it" },
        Language { code: "ja", name: "Japanese", internal_code: "ja" },
        Language { code: "ko", name: "Korean", internal_code: "ko" },
        Language { code: "ky", name: "Kyrgyz", internal_code: "ky" },
        Language { code: "lv", name: "Latvian", internal_code: "lv" },
        Language { code: "lt", name: "Lithuanian", internal_code: "lt" },
        Language { code: "ms", name: "Malay", internal_code: "ms" },
        Language { code: "nb", name: "Norwegian", internal_code: "nb" },
        Language { code: "fa", name: "Persian", internal_code: "fa" },
        Language { code: "pl", name: "Polish", internal_code: "pl" },
        Language { code: "pt", name: "Portuguese", internal_code: "pt" },
        Language { code: "pt-BR", name: "Portuguese (Brazil)", internal_code: "pb" },
        Language { code: "ro", name: "Romanian", internal_code: "ro" },
        Language { code: "ru", name: "Russian", internal_code: "ru" },
        Language { code: "sr", name: "Serbian", internal_code: "sr" },
        Language { code: "sk", name: "Slovak", internal_code: "sk" },
        Language { code: "sl", name: "Slovenian", internal_code: "sl" },
        Language { code: "es", name: "Spanish", internal_code: "es" },
        Language { code: "sv", name: "Swedish", internal_code: "sv" },
        Language { code: "tl", name: "Tagalog", internal_code: "tl" },
        Language { code: "th", name: "Thai", internal_code: "th" },
        Language { code: "tr", name: "Turkish", internal_code: "tr" },
        Language { code: "uk", name: "Ukrainian", internal_code: "uk" },
        Language { code: "ur", name: "Urdu", internal_code: "ur" },
        Language { code: "vi", name: "Vietnamese", internal_code: "vi" },
    ]
}

/// The languages on offer, as source and as target.
pub fn known_languages() -> (r: Vec<Language>)
    ensures
        r@ == known(),
{
    let table: Vec<Language> = vec![
        Language { code: "en", name: "English", internal_code: "en" },
        Language { code: "sq", name: "Albanian", internal_code: "sq" },
        Language { code: "ar", name: "Arabic", internal_code: "ar" },
        Language { code: "az", name: "Azerbaijani", internal_code: "az" },
        Language { code: "eu", name: "Basque", internal_code: "eu" },
        Language { code: "bn", name: "Bengali", internal_code: "bn" },
        Language { code: "bg", name: "Bulgarian", internal_code: "bg" },
        Language { code: "ca", name: "Catalan", internal_code: "ca" },
        Language { code: "zh-Hans", name: "Chinese", internal_code: "zh" },
        Language { code: "zh-Hant", name: "Chinese (traditional)", internal_code: "zt" },
        Language { code: "cs", name: "Czech", internal_code: "cs" },
        Language { code: "da", name: "Danish", internal_code: "da" },
        Language { code: "nl", name: "Dutch", internal_code: "nl" },
        Language { code: "eo", name: "Esperanto", internal_code: "eo" },
        Language { code: "et", name: "Estonian", internal_code: "et" },
        Language { code: "fi", name: "Finnish", internal_code: "fi" },
        Language { code: "fr", name: "French", internal_code: "fr" },
        Language { code: "gl", name: "Galician", internal_code: "gl" },
        Language { code: "de", name: "German", internal_code: "de" },
        Language { code: "el", name: "Greek", internal_code: "el" },
        Language { code: "he", name: "Hebrew", internal_code: "he" },
        Language { code: "hi", name: "Hindi", internal_code: "hi" },
        Language { code: "hu", name: "Hungarian", internal_code: "hu" },
        Language { code: "id", name: "Indonesian", internal_code: "id" },
        Language { code: "ga", name: "Irish", internal_code: "ga" },
        Language { code: "it", name: "Italian", internal_code: "it" },
        Language { code: "ja", name: "Japanese", internal_code: "ja" },
        Language { code: "ko", name: "Korean", internal_code: "ko" },
        Language { code: "ky", name: "Kyrgyz", internal_code: "ky" },
        Language { code: "lv", name: "Latvian", internal_code: "lv" },
        Language { code: "lt", name: "Lithuanian", internal_code: "lt" },
        Language { code: "ms", name: "Malay", internal_code: "ms" },
        Language { code: "nb", name: "Norwegian", internal_code: "nb" },
        Language { code: "fa", name: "Persian", internal_code: "fa" },
        Language { code: "pl", name: "Polish", internal_code: "pl" },
        Language { code: "pt", name: "Portuguese", internal_code: "pt" },
        Language { code: "pt-BR", name: "Portuguese (Brazil)", internal_code: "pb" },
        Language { code: "ro", name: "Romanian", internal_code: "ro" },
        Language { code: "ru", name: "Russian", internal_code: "ru" },
        Language { code: "sr", name: "Serbian", internal_code: "sr" },
        Language { code: "sk", name: "Slovak", internal_code: "sk" },
        Language { code: "sl", name: "Slovenian", internal_code: "sl" },
        Language { code: "es", name: "Spanish", internal_code: "es" },
        Language { code: "sv", name: "Swedish", internal_code: "sv" },
        Language { code: "tl", name: "Tagalog", internal_code: "tl" },
        Language { code: "th", name: "Thai", internal_code: "th" },
        Language { code: "tr", name: "Turkish", internal_code: "tr" },
        Language { code: "uk", name: "Ukrainian", internal_code: "uk" },
        Language { code: "ur", name: "Urdu", internal_code: "ur" },
        Language { code: "vi", name: "Vietnamese", internal_code: "vi" },
    ];
    assert(table@ =~= known());
    table
}

/// Whether a name is fit for the table: trimmed, and with a parenthesis inside where it has one at
/// an end.
spec fn is_fit(name: Seq<char>) -> bool {
    is_trimmed_name(name) && (has_edges(name) ==> has_parenthesis(inside(name)))
}

proof fn lemma_plain_name(name: Seq<char>)
    requires
        name.len() > 0,
        crate::std_text::is_ascii_text(name),
        !text::drops(Edge::Label, name.first()),
        !text::drops(Edge::Label, name.last()),
    ensures
        is_fit(name),
{
    let e = Edge::Label;
    text::lemma_strip_start_is(name, e, 0);
    assert(name.skip(0) == name);
    text::lemma_strip_end_is(name, e, name.len() as int);
    assert(name.take(name.len() as int) == name);
    assert(label_spec(name).len() == name.len());
}

proof fn lemma_parenthetical_name(name: Seq<char>, at: int)
    requires
        1 <= at < name.len() - 2,
        crate::std_text::is_ascii_text(name),
        !text::drops(Edge::Label, name.first()),
        name[at] == '(',
        name.last() == ')',
        !text::drops(Edge::Label, name[name.len() - 2]),
    ensures
        is_fit(name),
{
    let e = Edge::Label;
    let n = name.len() - 1;
    text::lemma_strip_start_is(name, e, 0);
    assert(name.skip(0) == name);
    text::lemma_strip_end_is(name, e, n);
    let core = name.take(n);
    assert(core == inside(name));
    assert(core[at] == '(');
    assert(core.contains('('));
    assert forall|i: int| 0 <= i < core.len() implies crate::std_text::is_ascii_char(
        #[trigger] core[i],
    ) by {
        assert(crate::std_text::is_ascii_char(name[i]));
    }
    assert(label_spec(name).len() == core.len());
}

proof fn lemma_names_are_fit()
    ensures
        forall|i: int| 0 <= i < known().len() ==> is_fit((#[trigger] known()[i]).name@),
{
    reveal_strlit("English");
    reveal_strlit("Albanian");
    reveal_strlit("Arabic");
    reveal_strlit("Azerbaijani");
    reveal_strlit("Basque");
    reveal_strlit("Bengali");
    reveal_strlit("Bulgarian");
    reveal_strlit("Catalan");
    reveal_strlit("Chinese");
    reveal_strlit("Chinese (traditional)");
    reveal_strlit("Czech");
    reveal_strlit("Danish");
    reveal_strlit("Dutch");
    reveal_strlit("Esperanto");
    reveal_strlit("Estonian");
    reveal_strlit("Finnish");
    reveal_strlit("French");
    reveal_strlit("Galician");
    reveal_strlit("German");
    reveal_strlit("Greek");
    reveal_strlit("Hebrew");
    reveal_strlit("Hindi");
    reveal_strlit("Hungarian");
    reveal_strlit("Indonesian");
    reveal_strlit("Irish");
    reveal_strlit("Italian");
    reveal_strlit("Japanese");
    reveal_strlit("Korean");
    reveal_strlit("Kyrgyz");
    reveal_strlit("Latvian");
    reveal_strlit("Lithuanian");
    reveal_strlit("Malay");
    reveal_strlit("Norwegian");
    reveal_strlit("Persian");
    reveal_strlit("Polish");
    reveal_strlit("Portuguese");
    reveal_strlit("Portuguese (Brazil)");
    reveal_strlit("Romanian");
    reveal_strlit("Russian");
    reveal_strlit("Serbian");
    reveal_strlit("Slovak");
    reveal_strlit("Slovenian");
    reveal_strlit("Spanish");
    reveal_strlit("Swedish");
    reveal_strlit("Tagalog");
    reveal_strlit("Thai");
    reveal_strlit("Turkish");
    reveal_strlit("Ukrainian");
    reveal_strlit("Urdu");
    reveal_strlit("Vietnamese");
    lemma_plain_name("English"@);
    lemma_plain_name("Albanian"@);
    lemma_plain_name("Arabic"@);
    lemma_plain_name("Azerbaijani"@);
    lemma_plain_name("Basque"@);
    lemma_plain_name("Bengali"@);
    lemma_plain_name("Bulgarian"@);
    lemma_plain_name("Catalan"@);
    lemma_plain_name("Chinese"@);
    lemma_parenthetical_name("Chinese (traditional)"@, 8);
    lemma_plain_name("Czech"@);
    lemma_plain_name("Danish"@);
    lemma_plain_name("Dutch"@);
    lemma_plain_name("Esperanto"@);
    lemma_plain_name("Estonian"@);
    lemma_plain_name("Finnish"@);
    lemma_plain_name("French"@);
    lemma_plain_name("Galician"@);
    lemma_plain_name("German"@);
    lemma_plain_name("Greek"@);
    lemma_plain_name("Hebrew"@);
    lemma_plain_name("Hindi"@);
    lemma_plain_name("Hungarian"@);
    lemma_plain_name("Indonesian"@);
    lemma_plain_name("Irish"@);
    lemma_plain_name("Italian"@);
    lemma_plain_name("Japanese"@);
    lemma_plain_name("Korean"@);
    lemma_plain_name("Kyrgyz"@);
    lemma_plain_name("Latvian"@);
    lemma_plain_name("Lithuanian"@);
    lemma_plain_name("Malay"@);
    lemma_plain_name("Norwegian"@);
    lemma_plain_name("Persian"@);
    lemma_plain_name("Polish"@);
    lemma_plain_name("Portuguese"@);
    lemma_parenthetical_name("Portuguese (Brazil)"@, 11);
    lemma_plain_name("Romanian"@);
    lemma_plain_name("Russian"@);
    lemma_plain_name("Serbian"@);
    lemma_plain_name("Slovak"@);
    lemma_plain_name("Slovenian"@);
    lemma_plain_name("Spanish"@);
    lemma_plain_name("Swedish"@);
    lemma_plain_name("Tagalog"@);
    lemma_plain_name("Thai"@);
    lemma_plain_name("Turkish"@);
    lemma_plain_name("Ukrainian"@);
    lemma_plain_name("Urdu"@);
    lemma_plain_name("Vietnamese"@);
}

/// The table of the service is one in which matching does not depend on white space or on letter
/// case, and English is in it.
pub proof fn law_known_names_are_fit()
    ensures
        names_are_trimmed(known()),
        edges_are_parenthetical(known()),
        language_of_code(known(), "en"@) == Some(known()[0]),
        known()[0].name@ == "English"@,
{
    lemma_names_are_fit();
}

/// Neither the case of ASCII letters nor quotes, parentheses and white space round a response without
/// parentheses change which language of the service it matches.
pub proof fn law_plain_responses_match_known_languages(
    before: Seq<char>,
    response: Seq<char>,
    after: Seq<char>,
)
    requires
        forall|i: int| 0 <= i < before.len() ==> text::drops(Edge::Label, #[trigger] before[i]),
        forall|i: int| 0 <= i < after.len() ==> text::drops(Edge::Label, #[trigger] after[i]),
        !has_parenthesis(response),
    ensures
        match_spec(known(), before + crate::std_text::ascii_uppered(response) + after)
            == match_spec(known(), response),
{
    law_known_names_are_fit();
    law_plain_responses_match_anywhere(known(), before, response, after);
}

/// A response whose last word is no score from 0 to 100 names the language of the service that all
/// of it matches, with confidence 100.
pub proof fn law_without_a_score_known_languages(response: Seq<char>)
    requires
        text::words_spec(response).len() == 0 || crate::detection::score_spec(
            text::words_spec(response).last(),
        ) is None,
    ensures
        detection_spec(known(), response) == match match_spec(known(), response) {
            Some(l) => Some((l, 100int)),
            None => None,
        },
{
    law_known_names_are_fit();
    law_without_a_score_all_is_the_label(known(), response);
}

} // verus!
