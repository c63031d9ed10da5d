//! Laws of looking languages up.

use vstd::prelude::*;

use crate::languages::{first_where, has_code, language_of_code, language_of_iso};
use crate::languages::{internal_code_spec, Language};

verus! {

/// A search in one table behind another goes to the second where the first has nothing.
pub proof fn lemma_first_where_in_two(
    a: Seq<Language>,
    b: Seq<Language>,
    p: spec_fn(Language) -> bool,
)
    ensures
        first_where(a + b, p) == if first_where(a, p) is Some {
            first_where(a, p)
        } else {
            first_where(b, p)
        },
    decreases a.len(),
{
    if a.len() == 0 {
        assert(a + b =~= b);
    } else {
        assert((a + b).first() == a.first());
        assert((a + b).drop_first() =~= a.drop_first() + b);
        lemma_first_where_in_two(a.drop_first(), b, p);
    }
}

/// A search in a table of one.
pub proof fn lemma_first_where_in_one(l: Language, p: spec_fn(Language) -> bool)
    ensures
        first_where(seq![l], p) == if p(l) {
            Some(l)
        } else {
            None
        },
        first_where(Seq::empty(), p) is None,
{
    reveal_with_fuel(first_where, 2);
    assert(seq![l].drop_first() =~= Seq::<Language>::empty());
}

/// A code stands for the first language of the table that has it, as public or as internal code, to
/// the letter.
pub proof fn law_lookup_by_code(a: Seq<Language>, l: Language, b: Seq<Language>, code: Seq<char>)
    ensures
        language_of_code(Seq::empty(), code) is None,
        l.code@ == code || l.internal_code@ == code ==> language_of_code(seq![l], code) == Some(l),
        l.code@ != code && l.internal_code@ != code ==> language_of_code(seq![l], code) is None,
        language_of_code(a, code) is Some ==> language_of_code(a + b, code) == language_of_code(
            a,
            code,
        ),
        language_of_code(a, code) is None ==> language_of_code(a + b, code) == language_of_code(
            b,
            code,
        ),
{
    let p = |k: Language| has_code(k, code);
    lemma_first_where_in_one(l, p);
    lemma_first_where_in_two(a, b, p);
}

/// An ISO code that is not known stands for no language; a known one stands for the language of the
/// table that has the internal code.
pub proof fn law_lookup_by_iso_code(languages: Seq<Language>, iso: Seq<char>)
    ensures
        internal_code_spec(iso) is None ==> language_of_iso(languages, iso) is None,
        internal_code_spec(iso) matches Some(code) ==> language_of_iso(languages, iso)
            == language_of_code(languages, code),
        internal_code_spec(iso) matches Some(code) ==> iso.len() == 3 && code.len() == 2,
{
    lemma_iso_lengths(iso);
}

/// The ISO codes that are known, and no others.
pub proof fn law_known_iso_codes(iso: Seq<char>)
    ensures
        internal_code_spec(iso) is Some <==> {
            ||| iso == "eng"@
            ||| iso == "ara"@
            ||| iso == "aze"@
            ||| iso == "ben"@
            ||| iso == "bul"@
            ||| iso == "cat"@
            ||| iso == "cmn"@
            ||| iso == "ces"@
            ||| iso == "dan"@
            ||| iso == "nld"@
            ||| iso == "epo"@
            ||| iso == "est"@
            ||| iso == "fin"@
            ||| iso == "fra"@
            ||| iso == "deu"@
            ||| iso == "ell"@
            ||| iso == "heb"@
            ||| iso == "hin"@
            ||| iso == "hun"@
            ||| iso == "ind"@
            ||| iso == "ita"@
            ||| iso == "jpn"@
            ||| iso == "kor"@
            ||| iso == "lav"@
            ||| iso == "lit"@
            ||| iso == "nob"@
            ||| iso == "pes"@
            ||| iso == "pol"@
            ||| iso == "por"@
            ||| iso == "ron"@
            ||| iso == "rus"@
            ||| iso == "srp"@
            ||| iso == "slk"@
            ||| iso == "slv"@
            ||| iso == "spa"@
            ||| iso == "swe"@
            ||| iso == "tgl"@
            ||| iso == "tha"@
            ||| iso == "tur"@
            ||| iso == "ukr"@
            ||| iso == "urd"@
            ||| iso == "vie"@
        },
{
}

proof fn lemma_iso_lengths(iso: Seq<char>)
    ensures
        internal_code_spec(iso) matches Some(code) ==> iso.len() == 3 && code.len() == 2,
{
    reveal_strlit("eng");
    reveal_strlit("en");
    reveal_strlit("ara");
    reveal_strlit("ar");
    reveal_strlit("aze");
    reveal_strlit("az");
    reveal_strlit("ben");
    reveal_strlit("bn");
    reveal_strlit("bul");
    reveal_strlit("bg");
    reveal_strlit("cat");
    reveal_strlit("ca");
    reveal_strlit("cmn");
    reveal_strlit("zh");
    reveal_strlit("ces");
    reveal_strlit("cs");
    reveal_strlit("dan");
    reveal_strlit("da");
    reveal_strlit("nld");
    reveal_strlit("nl");
    reveal_strlit("epo");
    reveal_strlit("eo");
    reveal_strlit("est");
    reveal_strlit("et");
    reveal_strlit("fin");
    reveal_strlit("fi");
    reveal_strlit("fra");
    reveal_strlit("fr");
    reveal_strlit("deu");
    reveal_strlit("de");
    reveal_strlit("ell");
    reveal_strlit("el");
    reveal_strlit("heb");
    reveal_strlit("he");
    reveal_strlit("hin");
    reveal_strlit("hi");
    reveal_strlit("hun");
    reveal_strlit("hu");
    reveal_strlit("ind");
    reveal_strlit("id");
    reveal_strlit("ita");
    reveal_strlit("it");
    reveal_strlit("jpn");
    reveal_strlit("ja");
    reveal_strlit("kor");
    reveal_strlit("ko");
    reveal_strlit("lav");
    reveal_strlit("lv");
    reveal_strlit("lit");
    reveal_strlit("lt");
    reveal_strlit("nob");
    reveal_strlit("nb");
    reveal_strlit("pes");
    reveal_strlit("fa");
    reveal_strlit("pol");
    reveal_strlit("pl");
    reveal_strlit("por");
    reveal_strlit("pt");
    reveal_strlit("ron");
    reveal_strlit("ro");
    reveal_strlit("rus");
    reveal_strlit("ru");
    reveal_strlit("srp");
    reveal_strlit("sr");
    reveal_strlit("slk");
    reveal_strlit("sk");
    reveal_strlit("slv");
    reveal_strlit("sl");
    reveal_strlit("spa");
    reveal_strlit("es");
    reveal_strlit("swe");
    reveal_strlit("sv");
    reveal_strlit("tgl");
    reveal_strlit("tl");
    reveal_strlit("tha");
    reveal_strlit("th");
    reveal_strlit("tur");
    reveal_strlit("tr");
    reveal_strlit("ukr");
    reveal_strlit("uk");
    reveal_strlit("urd");
    reveal_strlit("ur");
    reveal_strlit("vie");
    reveal_strlit("vi");
}

} // verus!
