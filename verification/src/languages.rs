//! Languages, and looking them up in a table that callers hand in.

use vstd::prelude::*;

use crate::text::same;

verus! {

/// A language of the table.
#[derive(Clone, Copy, Debug)]
pub struct Language {
    /// The code under which clients know the language, such as `zh-Hans`.
    pub code: &'static str,
    /// The name in English, such as `Portuguese (Brazil)`.
    pub name: &'static str,
    /// The code under which detectors know the language, such as `en`.
    pub internal_code: &'static str,
}

/// A detected language.
#[derive(Clone, Copy, Debug)]
pub struct LangDetect<'a> {
    pub language: &'a Language,
    /// How sure the detector is, in percent.
    pub confidence: i32,
}

/// The first language of a table with a property.
pub open spec fn first_where(languages: Seq<Language>, p: spec_fn(Language) -> bool) -> Option<
    Language,
>
    decreases languages.len(),
{
    if languages.len() == 0 {
        None
    } else if p(languages.first()) {
        Some(languages.first())
    } else {
        first_where(languages.drop_first(), p)
    }
}

/// Where the first `k` languages lack the property, the search goes on behind them.
pub proof fn lemma_first_where(languages: Seq<Language>, p: spec_fn(Language) -> bool, k: int)
    requires
        0 <= k <= languages.len(),
        forall|j: int| 0 <= j < k ==> !p(#[trigger] languages[j]),
    ensures
        first_where(languages, p) == first_where(languages.skip(k), p),
        k < languages.len() && p(languages[k]) ==> first_where(languages, p) == Some(languages[k]),
        k == languages.len() ==> first_where(languages, p) is None,
    decreases k,
{
    if k == 0 {
        assert(languages.skip(0) == languages);
    } else {
        let rest = languages.drop_first();
        assert(!p(languages[0]));
        assert forall|j: int| 0 <= j < k - 1 implies !p(#[trigger] rest[j]) by {
            assert(rest[j] == languages[j + 1]);
        }
        lemma_first_where(rest, p, k - 1);
        assert(rest.skip(k - 1) == languages.skip(k));
    }
}

/// A search finds something exactly where some language has the property, and what it finds is a
/// language of the table with the property.
pub proof fn lemma_first_where_found(languages: Seq<Language>, p: spec_fn(Language) -> bool)
    ensures
        first_where(languages, p) is Some <==> exists|i: int|
            0 <= i < languages.len() && p(#[trigger] languages[i]),
        first_where(languages, p) matches Some(l) ==> p(l) && languages.contains(l),
    decreases languages.len(),
{
    if languages.len() > 0 {
        let rest = languages.drop_first();
        if p(languages.first()) {
            assert(p(languages[0]));
            assert(languages.contains(languages[0]));
        } else {
            lemma_first_where_found(rest, p);
            if exists|i: int| 0 <= i < languages.len() && p(#[trigger] languages[i]) {
                let i = choose|i: int| 0 <= i < languages.len() && p(#[trigger] languages[i]);
                assert(i > 0);
                assert(rest[i - 1] == languages[i]);
            }
            if first_where(rest, p) is Some {
                let l = first_where(rest, p)->0;
                let j = choose|j: int| 0 <= j < rest.len() && rest[j] == l;
                assert(languages[j + 1] == l);
                let i = choose|i: int| 0 <= i < rest.len() && p(#[trigger] rest[i]);
                assert(p(languages[i + 1]));
            }
        }
    }
}

/// Whether clients or detectors know `l` under `code`.
pub open spec fn has_code(l: Language, code: Seq<char>) -> bool {
    l.code@ == code || l.internal_code@ == code
}

/// The first language of the table that is known under `code`.
pub open spec fn language_of_code(languages: Seq<Language>, code: Seq<char>) -> Option<Language> {
    first_where(languages, |l: Language| has_code(l, code))
}

/// The first language of the table that is known under `code`.
pub fn get_language_from_code<'a>(languages: &'a [Language], code: &str) -> (r: Option<
    &'a Language,
>)
    ensures
        r matches Some(l) ==> language_of_code(languages@, code@) == Some(*l),
        r is None ==> language_of_code(languages@, code@) is None,
{
    let ghost p = |l: Language| has_code(l, code@);
    let mut i: usize = 0;
    while i < languages.len()
        invariant
            i <= languages@.len(),
            p == (|l: Language| has_code(l, code@)),
            forall|j: int| 0 <= j < i ==> !p(#[trigger] languages@[j]),
        decreases languages@.len() - i,
    {
        let l: &'a Language = &languages[i];
        if same(l.code, code) || same(l.internal_code, code) {
            proof {
                lemma_first_where(languages@, p, i as int);
            }
            return Some(l);
        }
        i = i + 1;
    }
    proof {
        lemma_first_where(languages@, p, languages@.len() as int);
    }
    None
}

/// The internal code of a language that the statistical detector knows under an ISO 639-3 code, if
/// it is one that the service may know.
pub open spec fn internal_code_spec(iso: Seq<char>) -> Option<Seq<char>> {
    if iso == "eng"@ {
        Some("en"@)
    } else if iso == "ara"@ {
        Some("ar"@)
    } else if iso == "aze"@ {
        Some("az"@)
    } else if iso == "ben"@ {
        Some("bn"@)
    } else if iso == "bul"@ {
        Some("bg"@)
    } else if iso == "cat"@ {
        Some("ca"@)
    } else if iso == "cmn"@ {
        Some("zh"@)
    } else if iso == "ces"@ {
        Some("cs"@)
    } else if iso == "dan"@ {
        Some("da"@)
    } else if iso == "nld"@ {
        Some("nl"@)
    } else if iso == "epo"@ {
        Some("eo"@)
    } else if iso == "est"@ {
        Some("et"@)
    } else if iso == "fin"@ {
        Some("fi"@)
    } else if iso == "fra"@ {
        Some("fr"@)
    } else if iso == "deu"@ {
        Some("de"@)
    } else if iso == "ell"@ {
        Some("el"@)
    } else if iso == "heb"@ {
        Some("he"@)
    } else if iso == "hin"@ {
        Some("hi"@)
    } else if iso == "hun"@ {
        Some("hu"@)
    } else if iso == "ind"@ {
        Some("id"@)
    } else if iso == "ita"@ {
        Some("it"@)
    } else if iso == "jpn"@ {
        Some("ja"@)
    } else if iso == "kor"@ {
        Some("ko"@)
    } else if iso == "lav"@ {
        Some("lv"@)
    } else if iso == "lit"@ {
        Some("lt"@)
    } else if iso == "nob"@ {
        Some("nb"@)
    } else if iso == "pes"@ {
        Some("fa"@)
    } else if iso == "pol"@ {
        Some("pl"@)
    } else if iso == "por"@ {
        Some("pt"@)
    } else if iso == "ron"@ {
        Some("ro"@)
    } else if iso == "rus"@ {
        Some("ru"@)
    } else if iso == "srp"@ {
        Some("sr"@)
    } else if iso == "slk"@ {
        Some("sk"@)
    } else if iso == "slv"@ {
        Some("sl"@)
    } else if iso == "spa"@ {
        Some("es"@)
    } else if iso == "swe"@ {
        Some("sv"@)
    } else if iso == "tgl"@ {
        Some("tl"@)
    } else if iso == "tha"@ {
        Some("th"@)
    } else if iso == "tur"@ {
        Some("tr"@)
    } else if iso == "ukr"@ {
        Some("uk"@)
    } else if iso == "urd"@ {
        Some("ur"@)
    } else if iso == "vie"@ {
        Some("vi"@)
    } else {
        None
    }
}

/// The language of the table that the statistical detector means by an ISO 639-3 code.
pub open spec fn language_of_iso(languages: Seq<Language>, iso: Seq<char>) -> Option<Language> {
    match internal_code_spec(iso) {
        Some(code) => language_of_code(languages, code),
        None => None,
    }
}

fn internal_code(iso: &str) -> (r: Option<&'static str>)
    ensures
        match internal_code_spec(iso@) {
            Some(code) => r matches Some(c) && c@ == code,
            None => r is None,
        },
{
    if same(iso, "eng") {
        Some("en")
    } else if same(iso, "ara") {
        Some("ar")
    } else if same(iso, "aze") {
        Some("az")
    } else if same(iso, "ben") {
        Some("bn")
    } else if same(iso, "bul") {
        Some("bg")
    } else if same(iso, "cat") {
        Some("ca")
    } else if same(iso, "cmn") {
        Some("zh")
    } else if same(iso, "ces") {
        Some("cs")
    } else if same(iso, "dan") {
        Some("da")
    } else if same(iso, "nld") {
        Some("nl")
    } else if same(iso, "epo") {
        Some("eo")
    } else if same(iso, "est") {
        Some("et")
    } else if same(iso, "fin") {
        Some("fi")
    } else if same(iso, "fra") {
        Some("fr")
    } else if same(iso, "deu") {
        Some("de")
    } else if same(iso, "ell") {
        Some("el")
    } else if same(iso, "heb") {
        Some("he")
    } else if same(iso, "hin") {
        Some("hi")
    } else if same(iso, "hun") {
        Some("hu")
    } else if same(iso, "ind") {
        Some("id")
    } else if same(iso, "ita") {
        Some("it")
    } else if same(iso, "jpn") {
        Some("ja")
    } else if same(iso, "kor") {
        Some("ko")
    } else if same(iso, "lav") {
        Some("lv")
    } else if same(iso, "lit") {
        Some("lt")
    } else if same(iso, "nob") {
        Some("nb")
    } else if same(iso, "pes") {
        Some("fa")
    } else if same(iso, "pol") {
        Some("pl")
    } else if same(iso, "por") {
        Some("pt")
    } else if same(iso, "ron") {
        Some("ro")
    } else if same(iso, "rus") {
        Some("ru")
    } else if same(iso, "srp") {
        Some("sr")
    } else if same(iso, "slk") {
        Some("sk")
    } else if same(iso, "slv") {
        Some("sl")
    } else if same(iso, "spa") {
        Some("es")
    } else if same(iso, "swe") {
        Some("sv")
    } else if same(iso, "tgl") {
        Some("tl")
    } else if same(iso, "tha") {
        Some("th")
    } else if same(iso, "tur") {
        Some("tr")
    } else if same(iso, "ukr") {
        Some("uk")
    } else if same(iso, "urd") {
        Some("ur")
    } else if same(iso, "vie") {
        Some("vi")
    } else {
        None
    }
}

/// What the statistical detector found, as a language of the table. `found` is its ISO 639-3 code
/// with the confidence in percent. Where it found nothing, or a language that is not in the table,
/// the answer is English without confidence; `None` if the table lacks that too.
pub fn detect_lang<'a>(languages: &'a [Language], found: Option<(&str, i32)>) -> (r: Option<
    LangDetect<'a>,
>)
    ensures
        match (match found {
            Some(f) => language_of_iso(languages@, f.0@),
            None => None,
        }) {
            Some(l) => r matches Some(d) && *d.language == l && d.confidence == (found->0).1,
            None => match language_of_code(languages@, "en"@) {
                Some(english) => r matches Some(d) && *d.language == english && d.confidence == 0,
                None => r is None,
            },
        },
{
    if let Some((iso, confidence)) = found {
        if let Some(code) = internal_code(iso) {
            if let Some(language) = get_language_from_code(languages, code) {
                return Some(LangDetect { language, confidence });
            }
        }
    }
    match get_language_from_code(languages, "en") {
        Some(language) => Some(LangDetect { language, confidence: 0 }),
        None => None,
    }
}

/// Every language of a table is found under its own codes, or another that comes before it has
/// that code too.
pub proof fn law_codes_are_found(languages: Seq<Language>, i: int)
    requires
        0 <= i < languages.len(),
    ensures
        language_of_code(languages, languages[i].code@) matches Some(l) && has_code(
            l,
            languages[i].code@,
        ) && languages.contains(l),
        language_of_code(languages, languages[i].internal_code@) matches Some(l) && has_code(
            l,
            languages[i].internal_code@,
        ) && languages.contains(l),
        (forall|j: int| 0 <= j < i ==> !has_code(#[trigger] languages[j], languages[i].code@))
            ==> language_of_code(languages, languages[i].code@) == Some(languages[i]),
{
    let code = languages[i].code@;
    let internal = languages[i].internal_code@;
    let p = |l: Language| has_code(l, code);
    let pi = |l: Language| has_code(l, internal);
    assert(p(languages[i]) && pi(languages[i]));
    lemma_first_where_found(languages, p);
    lemma_first_where_found(languages, pi);
    if forall|j: int| 0 <= j < i ==> !has_code(#[trigger] languages[j], code) {
        assert forall|j: int| 0 <= j < i implies !p(#[trigger] languages[j]) by {}
        lemma_first_where(languages, p, i);
    }
}

} // verus!
