//! Laws of the table of languages.

use vstd::prelude::*;

use crate::detection::{inside, is_labelled, label_spec, match_spec};
use crate::languages::{first_where, has_code, language_of_code, language_of_iso, lemma_first_where};
use crate::languages::{internal_code_spec, Language};
use crate::std_text::{ascii_lower, is_ascii_char, is_ascii_text};
use crate::table::known;
use crate::text::{drops, lemma_strip_end_is, lemma_strip_start_is, Edge};

verus! {

spec fn code_key(s: Seq<char>) -> int {
    256 * (s[0] as int) + s[1] as int
}

spec fn code_index(k: int) -> int {
    if k == 25966 {
        0
    } else if k == 29553 {
        1
    } else if k == 24946 {
        2
    } else if k == 24954 {
        3
    } else if k == 25973 {
        4
    } else if k == 25198 {
        5
    } else if k == 25191 {
        6
    } else if k == 25441 {
        7
    } else if k == 31336 {
        8
    } else if k == 31348 {
        9
    } else if k == 25459 {
        10
    } else if k == 25697 {
        11
    } else if k == 28268 {
        12
    } else if k == 25967 {
        13
    } else if k == 25972 {
        14
    } else if k == 26217 {
        15
    } else if k == 26226 {
        16
    } else if k == 26476 {
        17
    } else if k == 25701 {
        18
    } else if k == 25964 {
        19
    } else if k == 26725 {
        20
    } else if k == 26729 {
        21
    } else if k == 26741 {
        22
    } else if k == 26980 {
        23
    } else if k == 26465 {
        24
    } else if k == 26996 {
        25
    } else if k == 27233 {
        26
    } else if k == 27503 {
        27
    } else if k == 27513 {
        28
    } else if k == 27766 {
        29
    } else if k == 27764 {
        30
    } else if k == 28019 {
        31
    } else if k == 28258 {
        32
    } else if k == 26209 {
        33
    } else if k == 28780 {
        34
    } else if k == 28788 {
        35
    } else if k == 28770 {
        36
    } else if k == 29295 {
        37
    } else if k == 29301 {
        38
    } else if k == 29554 {
        39
    } else if k == 29547 {
        40
    } else if k == 29548 {
        41
    } else if k == 25971 {
        42
    } else if k == 29558 {
        43
    } else if k == 29804 {
        44
    } else if k == 29800 {
        45
    } else if k == 29810 {
        46
    } else if k == 30059 {
        47
    } else if k == 30066 {
        48
    } else if k == 30313 {
        49
    } else {
        -1
    }
}

spec fn long_code_index(len: int, last: char) -> int {
    if len == 7 && last == 's' {
        8
    } else if len == 7 && last == 't' {
        9
    } else if len == 5 {
        36
    } else {
        -1
    }
}

spec fn name_key(s: Seq<char>) -> int {
    2097152 * (s.len() as int) + 16384 * (s[0] as int) + 128 * (s[1] as int) + s[3] as int
}

spec fn name_index(k: int) -> int {
    if k == 16349036 {
        0
    } else if k == 18380385 {
        1
    } else if k == 14186850 {
        2
    } else if k == 24673650 {
        3
    } else if k == 14201073 {
        4
    } else if k == 16298727 {
        5
    } else if k == 20495079 {
        6
    } else if k == 16314593 {
        7
    } else if k == 16315502 {
        8
    } else if k == 43578478 {
        9
    } else if k == 12123491 {
        10
    } else if k == 14233833 {
        11
    } else if k == 12139235 {
        12
    } else if k == 20543973 {
        13
    } else if k == 18446831 {
        14
    } else if k == 16364782 {
        15
    } else if k == 14268782 {
        16
    } else if k == 18477289 {
        17
    } else if k == 14283501 {
        18
    } else if k == 12188005 {
        19
    } else if k == 14299890 {
        20
    } else if k == 12203236 {
        21
    } else if k == 20593383 {
        22
    } else if k == 22706031 {
        23
    } else if k == 12220787 {
        24
    } else if k == 16415340 {
        25
    } else if k == 18526433 {
        26
    } else if k == 14350309 {
        27
    } else if k == 14351591 {
        28
    } else if k == 16462070 {
        29
    } else if k == 22754536 {
        30
    } else if k == 12284129 {
        31
    } else if k == 20690935 {
        32
    } else if k == 16528115 {
        33
    } else if k == 14432233 {
        34
    } else if k == 22820852 {
        35
    } else if k == 39598068 {
        36
    } else if k == 18659297 {
        37
    } else if k == 16562931 {
        38
    } else if k == 16577250 {
        39
    } else if k == 14481014 {
        40
    } else if k == 20772470 {
        41
    } else if k == 16578670 {
        42
    } else if k == 16579556 {
        43
    } else if k == 16593121 {
        44
    } else if k == 10302569 {
        45
    } else if k == 16595691 {
        46
    } else if k == 20805089 {
        47
    } else if k == 10320245 {
        48
    } else if k == 22918388 {
        49
    } else {
        -1
    }
}

spec fn is_plain(s: Seq<char>) -> bool {
    &&& s.len() > 0
    &&& is_ascii_text(s)
    &&& !drops(Edge::Label, s[0])
    &&& !drops(Edge::Label, s[s.len() - 1])
}

spec fn lowered(c: char) -> bool {
    'a' <= c <= 'z'
}

/// What is particular to row `i` of the table.
#[verifier::opaque]
spec fn fits(i: int, l: Language) -> bool {
    &&& is_plain(l.internal_code@)
    &&& l.internal_code@.len() == 2
    &&& lowered(l.internal_code@[0])
    &&& lowered(l.internal_code@[1])
    &&& code_index(code_key(l.internal_code@)) == i
    &&& is_plain(l.code@)
    &&& l.code@ == l.internal_code@ || {
        &&& l.code@.len() >= 5
        &&& l.code@[2] == '-'
        &&& long_code_index(l.code@.len() as int, ascii_lower(l.code@[l.code@.len() - 1])) == i
    }
    &&& label_spec(l.name@).len() >= 4
    &&& label_spec(l.name@)[2] != '-'
    &&& name_index(name_key(label_spec(l.name@))) == i
}

proof fn lemma_label_of_plain(s: Seq<char>)
    requires
        is_plain(s),
    ensures
        label_spec(s) == s.map_values(|c: char| ascii_lower(c)),
{
    let e = Edge::Label;
    lemma_strip_start_is(s, e, 0);
    assert(s.skip(0) =~= s);
    lemma_strip_end_is(s, e, s.len() as int);
    assert(s.take(s.len() as int) =~= s);
}

proof fn lemma_label_of_parenthetical(s: Seq<char>)
    requires
        s.len() > 2,
        is_ascii_text(s),
        !drops(Edge::Label, s[0]),
        s[s.len() - 1] == ')',
        !drops(Edge::Label, s[s.len() - 2]),
    ensures
        label_spec(s) == s.take(s.len() - 1).map_values(|c: char| ascii_lower(c)),
{
    let e = Edge::Label;
    lemma_strip_start_is(s, e, 0);
    assert(s.skip(0) =~= s);
    lemma_strip_end_is(s, e, s.len() - 1);
    let t = s.take(s.len() - 1);
    assert forall|i: int| 0 <= i < t.len() implies is_ascii_char(#[trigger] t[i]) by {
        assert(is_ascii_char(s[i]));
    }
}

proof fn lemma_rows_0()
    ensures
        fits(0, known()[0]),
        fits(1, known()[1]),
        fits(2, known()[2]),
        fits(3, known()[3]),
        fits(4, known()[4]),
{
    reveal(fits);
    reveal_strlit("en");
    reveal_strlit("English");
    lemma_label_of_plain("English"@);
    reveal_strlit("sq");
    reveal_strlit("Albanian");
    lemma_label_of_plain("Albanian"@);
    reveal_strlit("ar");
    reveal_strlit("Arabic");
    lemma_label_of_plain("Arabic"@);
    reveal_strlit("az");
    reveal_strlit("Azerbaijani");
    lemma_label_of_plain("Azerbaijani"@);
    reveal_strlit("eu");
    reveal_strlit("Basque");
    lemma_label_of_plain("Basque"@);
}

proof fn lemma_rows_5()
    ensures
        fits(5, known()[5]),
        fits(6, known()[6]),
        fits(7, known()[7]),
        fits(8, known()[8]),
        fits(9, known()[9]),
{
    reveal(fits);
    reveal_strlit("bn");
    reveal_strlit("Bengali");
    lemma_label_of_plain("Bengali"@);
    reveal_strlit("bg");
    reveal_strlit("Bulgarian");
    lemma_label_of_plain("Bulgarian"@);
    reveal_strlit("ca");
    reveal_strlit("Catalan");
    lemma_label_of_plain("Catalan"@);
    reveal_strlit("zh-Hans");
    reveal_strlit("Chinese");
    reveal_strlit("zh");
    lemma_label_of_plain("Chinese"@);
    reveal_strlit("zh-Hant");
    reveal_strlit("Chinese (traditional)");
    reveal_strlit("zt");
    lemma_label_of_parenthetical("Chinese (traditional)"@);
}

proof fn lemma_rows_10()
    ensures
        fits(10, known()[10]),
        fits(11, known()[11]),
        fits(12, known()[12]),
        fits(13, known()[13]),
        fits(14, known()[14]),
{
    reveal(fits);
    reveal_strlit("cs");
    reveal_strlit("Czech");
    lemma_label_of_plain("Czech"@);
    reveal_strlit("da");
    reveal_strlit("Danish");
    lemma_label_of_plain("Danish"@);
    reveal_strlit("nl");
    reveal_strlit("Dutch");
    lemma_label_of_plain("Dutch"@);
    reveal_strlit("eo");
    reveal_strlit("Esperanto");
    lemma_label_of_plain("Esperanto"@);
    reveal_strlit("et");
    reveal_strlit("Estonian");
    lemma_label_of_plain("Estonian"@);
}

proof fn lemma_rows_15()
    ensures
        fits(15, known()[15]),
        fits(16, known()[16]),
        fits(17, known()[17]),
        fits(18, known()[18]),
        fits(19, known()[19]),
{
    reveal(fits);
    reveal_strlit("fi");
    reveal_strlit("Finnish");
    lemma_label_of_plain("Finnish"@);
    reveal_strlit("fr");
    reveal_strlit("French");
    lemma_label_of_plain("French"@);
    reveal_strlit("gl");
    reveal_strlit("Galician");
    lemma_label_of_plain("Galician"@);
    reveal_strlit("de");
    reveal_strlit("German");
    lemma_label_of_plain("German"@);
    reveal_strlit("el");
    reveal_strlit("Greek");
    lemma_label_of_plain("Greek"@);
}

proof fn lemma_rows_20()
    ensures
        fits(20, known()[20]),
        fits(21, known()[21]),
        fits(22, known()[22]),
        fits(23, known()[23]),
        fits(24, known()[24]),
{
    reveal(fits);
    reveal_strlit("he");
    reveal_strlit("Hebrew");
    lemma_label_of_plain("Hebrew"@);
    reveal_strlit("hi");
    reveal_strlit("Hindi");
    lemma_label_of_plain("Hindi"@);
    reveal_strlit("hu");
    reveal_strlit("Hungarian");
    lemma_label_of_plain("Hungarian"@);
    reveal_strlit("id");
    reveal_strlit("Indonesian");
    lemma_label_of_plain("Indonesian"@);
    reveal_strlit("ga");
    reveal_strlit("Irish");
    lemma_label_of_plain("Irish"@);
}

proof fn lemma_rows_25()
    ensures
        fits(25, known()[25]),
        fits(26, known()[26]),
        fits(27, known()[27]),
        fits(28, known()[28]),
        fits(29, known()[29]),
{
    reveal(fits);
    reveal_strlit("it");
    reveal_strlit("Italian");
    lemma_label_of_plain("Italian"@);
    reveal_strlit("ja");
    reveal_strlit("Japanese");
    lemma_label_of_plain("Japanese"@);
    reveal_strlit("ko");
    reveal_strlit("Korean");
    lemma_label_of_plain("Korean"@);
    reveal_strlit("ky");
    reveal_strlit("Kyrgyz");
    lemma_label_of_plain("Kyrgyz"@);
    reveal_strlit("lv");
    reveal_strlit("Latvian");
    lemma_label_of_plain("Latvian"@);
}

proof fn lemma_rows_30()
    ensures
        fits(30, known()[30]),
        fits(31, known()[31]),
        fits(32, known()[32]),
        fits(33, known()[33]),
        fits(34, known()[34]),
{
    reveal(fits);
    reveal_strlit("lt");
    reveal_strlit("Lithuanian");
    lemma_label_of_plain("Lithuanian"@);
    reveal_strlit("ms");
    reveal_strlit("Malay");
    lemma_label_of_plain("Malay"@);
    reveal_strlit("nb");
    reveal_strlit("Norwegian");
    lemma_label_of_plain("Norwegian"@);
    reveal_strlit("fa");
    reveal_strlit("Persian");
    lemma_label_of_plain("Persian"@);
    reveal_strlit("pl");
    reveal_strlit("Polish");
    lemma_label_of_plain("Polish"@);
}

proof fn lemma_rows_35()
    ensures
        fits(35, known()[35]),
        fits(36, known()[36]),
        fits(37, known()[37]),
        fits(38, known()[38]),
        fits(39, known()[39]),
{
    reveal(fits);
    reveal_strlit("pt");
    reveal_strlit("Portuguese");
    lemma_label_of_plain("Portuguese"@);
    reveal_strlit("pt-BR");
    reveal_strlit("Portuguese (Brazil)");
    reveal_strlit("pb");
    lemma_label_of_parenthetical("Portuguese (Brazil)"@);
    reveal_strlit("ro");
    reveal_strlit("Romanian");
    lemma_label_of_plain("Romanian"@);
    reveal_strlit("ru");
    reveal_strlit("Russian");
    lemma_label_of_plain("Russian"@);
    reveal_strlit("sr");
    reveal_strlit("Serbian");
    lemma_label_of_plain("Serbian"@);
}

proof fn lemma_rows_40()
    ensures
        fits(40, known()[40]),
        fits(41, known()[41]),
        fits(42, known()[42]),
        fits(43, known()[43]),
        fits(44, known()[44]),
{
    reveal(fits);
    reveal_strlit("sk");
    reveal_strlit("Slovak");
    lemma_label_of_plain("Slovak"@);
    reveal_strlit("sl");
    reveal_strlit("Slovenian");
    lemma_label_of_plain("Slovenian"@);
    reveal_strlit("es");
    reveal_strlit("Spanish");
    lemma_label_of_plain("Spanish"@);
    reveal_strlit("sv");
    reveal_strlit("Swedish");
    lemma_label_of_plain("Swedish"@);
    reveal_strlit("tl");
    reveal_strlit("Tagalog");
    lemma_label_of_plain("Tagalog"@);
}

proof fn lemma_rows_45()
    ensures
        fits(45, known()[45]),
        fits(46, known()[46]),
        fits(47, known()[47]),
        fits(48, known()[48]),
        fits(49, known()[49]),
{
    reveal(fits);
    reveal_strlit("th");
    reveal_strlit("Thai");
    lemma_label_of_plain("Thai"@);
    reveal_strlit("tr");
    reveal_strlit("Turkish");
    lemma_label_of_plain("Turkish"@);
    reveal_strlit("uk");
    reveal_strlit("Ukrainian");
    lemma_label_of_plain("Ukrainian"@);
    reveal_strlit("ur");
    reveal_strlit("Urdu");
    lemma_label_of_plain("Urdu"@);
    reveal_strlit("vi");
    reveal_strlit("Vietnamese");
    lemma_label_of_plain("Vietnamese"@);
}

proof fn lemma_rows()
    ensures
        known().len() == 50,
        forall|i: int| 0 <= i < 50 ==> fits(i, #[trigger] known()[i]),
{
    lemma_rows_0();
    lemma_rows_5();
    lemma_rows_10();
    lemma_rows_15();
    lemma_rows_20();
    lemma_rows_25();
    lemma_rows_30();
    lemma_rows_35();
    lemma_rows_40();
    lemma_rows_45();
    assert forall|i: int| 0 <= i < 50 implies fits(i, #[trigger] known()[i]) by {
        if i == 0 {
            assert(fits(0, known()[0]));
        } else if i == 1 {
            assert(fits(1, known()[1]));
        } else if i == 2 {
            assert(fits(2, known()[2]));
        } else if i == 3 {
            assert(fits(3, known()[3]));
        } else if i == 4 {
            assert(fits(4, known()[4]));
        } else if i == 5 {
            assert(fits(5, known()[5]));
        } else if i == 6 {
            assert(fits(6, known()[6]));
        } else if i == 7 {
            assert(fits(7, known()[7]));
        } else if i == 8 {
            assert(fits(8, known()[8]));
        } else if i == 9 {
            assert(fits(9, known()[9]));
        } else if i == 10 {
            assert(fits(10, known()[10]));
        } else if i == 11 {
            assert(fits(11, known()[11]));
        } else if i == 12 {
            assert(fits(12, known()[12]));
        } else if i == 13 {
            assert(fits(13, known()[13]));
        } else if i == 14 {
            assert(fits(14, known()[14]));
        } else if i == 15 {
            assert(fits(15, known()[15]));
        } else if i == 16 {
            assert(fits(16, known()[16]));
        } else if i == 17 {
            assert(fits(17, known()[17]));
        } else if i == 18 {
            assert(fits(18, known()[18]));
        } else if i == 19 {
            assert(fits(19, known()[19]));
        } else if i == 20 {
            assert(fits(20, known()[20]));
        } else if i == 21 {
            assert(fits(21, known()[21]));
        } else if i == 22 {
            assert(fits(22, known()[22]));
        } else if i == 23 {
            assert(fits(23, known()[23]));
        } else if i == 24 {
            assert(fits(24, known()[24]));
        } else if i == 25 {
            assert(fits(25, known()[25]));
        } else if i == 26 {
            assert(fits(26, known()[26]));
        } else if i == 27 {
            assert(fits(27, known()[27]));
        } else if i == 28 {
            assert(fits(28, known()[28]));
        } else if i == 29 {
            assert(fits(29, known()[29]));
        } else if i == 30 {
            assert(fits(30, known()[30]));
        } else if i == 31 {
            assert(fits(31, known()[31]));
        } else if i == 32 {
            assert(fits(32, known()[32]));
        } else if i == 33 {
            assert(fits(33, known()[33]));
        } else if i == 34 {
            assert(fits(34, known()[34]));
        } else if i == 35 {
            assert(fits(35, known()[35]));
        } else if i == 36 {
            assert(fits(36, known()[36]));
        } else if i == 37 {
            assert(fits(37, known()[37]));
        } else if i == 38 {
            assert(fits(38, known()[38]));
        } else if i == 39 {
            assert(fits(39, known()[39]));
        } else if i == 40 {
            assert(fits(40, known()[40]));
        } else if i == 41 {
            assert(fits(41, known()[41]));
        } else if i == 42 {
            assert(fits(42, known()[42]));
        } else if i == 43 {
            assert(fits(43, known()[43]));
        } else if i == 44 {
            assert(fits(44, known()[44]));
        } else if i == 45 {
            assert(fits(45, known()[45]));
        } else if i == 46 {
            assert(fits(46, known()[46]));
        } else if i == 47 {
            assert(fits(47, known()[47]));
        } else if i == 48 {
            assert(fits(48, known()[48]));
        } else if i == 49 {
            assert(fits(49, known()[49]));
        }
    }
}

proof fn lemma_lower_of_code(i: int, l: Language)
    requires
        fits(i, l),
    ensures
        label_spec(l.code@) == l.code@.map_values(|c: char| ascii_lower(c)),
        crate::std_text::lowercase(l.code@) == label_spec(l.code@),
        label_spec(l.internal_code@) == l.internal_code@,
        l.code@.len() == 2 ==> l.code@ == l.internal_code@ && label_spec(l.code@)
            == l.internal_code@,
        l.code@.len() != 2 ==> l.code@.len() >= 5 && label_spec(l.code@)[2] == '-',
{
    reveal(fits);
    lemma_label_of_plain(l.code@);
    lemma_label_of_plain(l.internal_code@);
    assert(label_spec(l.internal_code@) =~= l.internal_code@);
}

proof fn lemma_codes_differ(i: int, a: Language, j: int, b: Language)
    requires
        fits(i, a),
        fits(j, b),
        i != j,
    ensures
        a.internal_code@ != b.internal_code@,
        a.internal_code@ != b.code@,
        a.internal_code@ != label_spec(b.code@),
        a.code@ != b.code@,
        label_spec(a.code@) != label_spec(b.code@),
        label_spec(a.name@) != label_spec(b.name@),
        label_spec(a.name@) != label_spec(b.code@),
        label_spec(a.name@) != b.internal_code@,
{
    reveal(fits);
    lemma_lower_of_code(i, a);
    lemma_lower_of_code(j, b);
    if a.internal_code@ == b.internal_code@ {
        assert(code_key(a.internal_code@) == code_key(b.internal_code@));
    }
    if label_spec(a.code@) == label_spec(b.code@) {
        if a.code@.len() != 2 {
            let m = a.code@.len() - 1;
            assert(label_spec(a.code@).len() == a.code@.len());
            assert(label_spec(b.code@).len() == b.code@.len());
            assert(label_spec(a.code@)[m] == ascii_lower(a.code@[m]));
            assert(label_spec(b.code@)[m] == ascii_lower(b.code@[m]));
        }
    }
    if label_spec(a.name@) == label_spec(b.name@) {
        assert(name_key(label_spec(a.name@)) == name_key(label_spec(b.name@)));
    }
}

proof fn lemma_labels_differ(i: int, a: Language, j: int, b: Language)
    requires
        fits(i, a),
        fits(j, b),
        i != j,
    ensures
        !is_labelled(b, a.code@),
        !is_labelled(b, a.internal_code@),
        !is_labelled(b, a.name@),
        !has_code(b, a.code@),
        !has_code(b, a.internal_code@),
{
    lemma_codes_differ(i, a, j, b);
    lemma_codes_differ(j, b, i, a);
    lemma_lower_of_code(i, a);
    lemma_lower_of_code(j, b);
}

/// Every language of the service is read back from each of its codes and from its name, and so are
/// the regional ones: no other language takes a code or a name that begins or ends like its own.
pub proof fn law_codes_and_names_are_read_back(i: int)
    requires
        0 <= i < known().len(),
    ensures
        match_spec(known(), known()[i].code@) == Some(known()[i]),
        match_spec(known(), known()[i].internal_code@) == Some(known()[i]),
        match_spec(known(), known()[i].name@) == Some(known()[i]),
        language_of_code(known(), known()[i].code@) == Some(known()[i]),
        language_of_code(known(), known()[i].internal_code@) == Some(known()[i]),
{
    lemma_rows();
    let l = known()[i];
    assert(fits(i, l));
    lemma_lower_of_code(i, l);
    assert forall|j: int| 0 <= j < i implies !is_labelled(#[trigger] known()[j], l.code@)
        && !is_labelled(known()[j], l.internal_code@) && !is_labelled(known()[j], l.name@)
        && !has_code(known()[j], l.code@) && !has_code(known()[j], l.internal_code@) by {
        assert(fits(j, known()[j]));
        lemma_labels_differ(i, l, j, known()[j]);
    }
    crate::detection::law_names_match(known(), i);
    assert(is_labelled(l, l.code@) && is_labelled(l, l.internal_code@));
    lemma_first_where(known(), |k: Language| is_labelled(k, l.code@), i);
    lemma_first_where(known(), |k: Language| is_labelled(k, l.internal_code@), i);
    lemma_first_where(known(), |k: Language| has_code(k, l.code@), i);
    lemma_first_where(known(), |k: Language| has_code(k, l.internal_code@), i);
}

/// Whether the service has the language `name` under the code, for clients and for detectors.
pub open spec fn offers(code: Seq<char>, internal: Seq<char>, name: Seq<char>) -> bool {
    language_of_code(known(), code) matches Some(l) && l.code@ == code && l.internal_code@ == internal
        && l.name@ == name && language_of_code(known(), internal) == Some(l) && match_spec(
        known(),
        name,
    ) == Some(l)
}

proof fn lemma_offers_0()
    ensures
        offers("en"@, "en"@, "English"@),
        offers("sq"@, "sq"@, "Albanian"@),
        offers("ar"@, "ar"@, "Arabic"@),
        offers("az"@, "az"@, "Azerbaijani"@),
        offers("eu"@, "eu"@, "Basque"@),
{
    law_codes_and_names_are_read_back(0);
    law_codes_and_names_are_read_back(1);
    law_codes_and_names_are_read_back(2);
    law_codes_and_names_are_read_back(3);
    law_codes_and_names_are_read_back(4);
}

proof fn lemma_offers_5()
    ensures
        offers("bn"@, "bn"@, "Bengali"@),
        offers("bg"@, "bg"@, "Bulgarian"@),
        offers("ca"@, "ca"@, "Catalan"@),
        offers("zh-Hans"@, "zh"@, "Chinese"@),
        offers("zh-Hant"@, "zt"@, "Chinese (traditional)"@),
{
    law_codes_and_names_are_read_back(5);
    law_codes_and_names_are_read_back(6);
    law_codes_and_names_are_read_back(7);
    law_codes_and_names_are_read_back(8);
    law_codes_and_names_are_read_back(9);
}

proof fn lemma_offers_10()
    ensures
        offers("cs"@, "cs"@, "Czech"@),
        offers("da"@, "da"@, "Danish"@),
        offers("nl"@, "nl"@, "Dutch"@),
        offers("eo"@, "eo"@, "Esperanto"@),
        offers("et"@, "et"@, "Estonian"@),
{
    law_codes_and_names_are_read_back(10);
    law_codes_and_names_are_read_back(11);
    law_codes_and_names_are_read_back(12);
    law_codes_and_names_are_read_back(13);
    law_codes_and_names_are_read_back(14);
}

proof fn lemma_offers_15()
    ensures
        offers("fi"@, "fi"@, "Finnish"@),
        offers("fr"@, "fr"@, "French"@),
        offers("gl"@, "gl"@, "Galician"@),
        offers("de"@, "de"@, "German"@),
        offers("el"@, "el"@, "Greek"@),
{
    law_codes_and_names_are_read_back(15);
    law_codes_and_names_are_read_back(16);
    law_codes_and_names_are_read_back(17);
    law_codes_and_names_are_read_back(18);
    law_codes_and_names_are_read_back(19);
}

proof fn lemma_offers_20()
    ensures
        offers("he"@, "he"@, "Hebrew"@),
        offers("hi"@, "hi"@, "Hindi"@),
        offers("hu"@, "hu"@, "Hungarian"@),
        offers("id"@, "id"@, "Indonesian"@),
        offers("ga"@, "ga"@, "Irish"@),
{
    law_codes_and_names_are_read_back(20);
    law_codes_and_names_are_read_back(21);
    law_codes_and_names_are_read_back(22);
    law_codes_and_names_are_read_back(23);
    law_codes_and_names_are_read_back(24);
}

proof fn lemma_offers_25()
    ensures
        offers("it"@, "it"@, "Italian"@),
        offers("ja"@, "ja"@, "Japanese"@),
        offers("ko"@, "ko"@, "Korean"@),
        offers("ky"@, "ky"@, "Kyrgyz"@),
        offers("lv"@, "lv"@, "Latvian"@),
{
    law_codes_and_names_are_read_back(25);
    law_codes_and_names_are_read_back(26);
    law_codes_and_names_are_read_back(27);
    law_codes_and_names_are_read_back(28);
    law_codes_and_names_are_read_back(29);
}

proof fn lemma_offers_30()
    ensures
        offers("lt"@, "lt"@, "Lithuanian"@),
        offers("ms"@, "ms"@, "Malay"@),
        offers("nb"@, "nb"@, "Norwegian"@),
        offers("fa"@, "fa"@, "Persian"@),
        offers("pl"@, "pl"@, "Polish"@),
{
    law_codes_and_names_are_read_back(30);
    law_codes_and_names_are_read_back(31);
    law_codes_and_names_are_read_back(32);
    law_codes_and_names_are_read_back(33);
    law_codes_and_names_are_read_back(34);
}

proof fn lemma_offers_35()
    ensures
        offers("pt"@, "pt"@, "Portuguese"@),
        offers("pt-BR"@, "pb"@, "Portuguese (Brazil)"@),
        offers("ro"@, "ro"@, "Romanian"@),
        offers("ru"@, "ru"@, "Russian"@),
        offers("sr"@, "sr"@, "Serbian"@),
{
    law_codes_and_names_are_read_back(35);
    law_codes_and_names_are_read_back(36);
    law_codes_and_names_are_read_back(37);
    law_codes_and_names_are_read_back(38);
    law_codes_and_names_are_read_back(39);
}

proof fn lemma_offers_40()
    ensures
        offers("sk"@, "sk"@, "Slovak"@),
        offers("sl"@, "sl"@, "Slovenian"@),
        offers("es"@, "es"@, "Spanish"@),
        offers("sv"@, "sv"@, "Swedish"@),
        offers("tl"@, "tl"@, "Tagalog"@),
{
    law_codes_and_names_are_read_back(40);
    law_codes_and_names_are_read_back(41);
    law_codes_and_names_are_read_back(42);
    law_codes_and_names_are_read_back(43);
    law_codes_and_names_are_read_back(44);
}

proof fn lemma_offers_45()
    ensures
        offers("th"@, "th"@, "Thai"@),
        offers("tr"@, "tr"@, "Turkish"@),
        offers("uk"@, "uk"@, "Ukrainian"@),
        offers("ur"@, "ur"@, "Urdu"@),
        offers("vi"@, "vi"@, "Vietnamese"@),
{
    law_codes_and_names_are_read_back(45);
    law_codes_and_names_are_read_back(46);
    law_codes_and_names_are_read_back(47);
    law_codes_and_names_are_read_back(48);
    law_codes_and_names_are_read_back(49);
}

/// The languages on offer, by name.
pub proof fn law_languages_on_offer()
    ensures
        known().len() == 50,
        offers("en"@, "en"@, "English"@),
        offers("sq"@, "sq"@, "Albanian"@),
        offers("ar"@, "ar"@, "Arabic"@),
        offers("az"@, "az"@, "Azerbaijani"@),
        offers("eu"@, "eu"@, "Basque"@),
        offers("bn"@, "bn"@, "Bengali"@),
        offers("bg"@, "bg"@, "Bulgarian"@),
        offers("ca"@, "ca"@, "Catalan"@),
        offers("zh-Hans"@, "zh"@, "Chinese"@),
        offers("zh-Hant"@, "zt"@, "Chinese (traditional)"@),
        offers("cs"@, "cs"@, "Czech"@),
        offers("da"@, "da"@, "Danish"@),
        offers("nl"@, "nl"@, "Dutch"@),
        offers("eo"@, "eo"@, "Esperanto"@),
        offers("et"@, "et"@, "Estonian"@),
        offers("fi"@, "fi"@, "Finnish"@),
        offers("fr"@, "fr"@, "French"@),
        offers("gl"@, "gl"@, "Galician"@),
        offers("de"@, "de"@, "German"@),
        offers("el"@, "el"@, "Greek"@),
        offers("he"@, "he"@, "Hebrew"@),
        offers("hi"@, "hi"@, "Hindi"@),
        offers("hu"@, "hu"@, "Hungarian"@),
        offers("id"@, "id"@, "Indonesian"@),
        offers("ga"@, "ga"@, "Irish"@),
        offers("it"@, "it"@, "Italian"@),
        offers("ja"@, "ja"@, "Japanese"@),
        offers("ko"@, "ko"@, "Korean"@),
        offers("ky"@, "ky"@, "Kyrgyz"@),
        offers("lv"@, "lv"@, "Latvian"@),
        offers("lt"@, "lt"@, "Lithuanian"@),
        offers("ms"@, "ms"@, "Malay"@),
        offers("nb"@, "nb"@, "Norwegian"@),
        offers("fa"@, "fa"@, "Persian"@),
        offers("pl"@, "pl"@, "Polish"@),
        offers("pt"@, "pt"@, "Portuguese"@),
        offers("pt-BR"@, "pb"@, "Portuguese (Brazil)"@),
        offers("ro"@, "ro"@, "Romanian"@),
        offers("ru"@, "ru"@, "Russian"@),
        offers("sr"@, "sr"@, "Serbian"@),
        offers("sk"@, "sk"@, "Slovak"@),
        offers("sl"@, "sl"@, "Slovenian"@),
        offers("es"@, "es"@, "Spanish"@),
        offers("sv"@, "sv"@, "Swedish"@),
        offers("tl"@, "tl"@, "Tagalog"@),
        offers("th"@, "th"@, "Thai"@),
        offers("tr"@, "tr"@, "Turkish"@),
        offers("uk"@, "uk"@, "Ukrainian"@),
        offers("ur"@, "ur"@, "Urdu"@),
        offers("vi"@, "vi"@, "Vietnamese"@),
{
    lemma_offers_0();
    lemma_offers_5();
    lemma_offers_10();
    lemma_offers_15();
    lemma_offers_20();
    lemma_offers_25();
    lemma_offers_30();
    lemma_offers_35();
    lemma_offers_40();
    lemma_offers_45();
}

#[verifier::opaque]
spec fn iso_key(s: Seq<char>) -> int {
    65536 * (s[0] as int) + 256 * (s[1] as int) + s[2] as int
}

proof fn lemma_iso_keys()
    ensures
        iso_key("eng"@) == 6647399,
        iso_key("ara"@) == 6386273,
        iso_key("aze"@) == 6388325,
        iso_key("ben"@) == 6448494,
        iso_key("bul"@) == 6452588,
        iso_key("cat"@) == 6513012,
        iso_key("cmn"@) == 6516078,
        iso_key("ces"@) == 6514035,
        iso_key("dan"@) == 6578542,
        iso_key("nld"@) == 7236708,
        iso_key("epo"@) == 6647919,
        iso_key("est"@) == 6648692,
        iso_key("fin"@) == 6711662,
        iso_key("fra"@) == 6713953,
        iso_key("deu"@) == 6579573,
        iso_key("ell"@) == 6646892,
        iso_key("heb"@) == 6841698,
        iso_key("hin"@) == 6842734,
        iso_key("hun"@) == 6845806,
        iso_key("ind"@) == 6909540,
        iso_key("ita"@) == 6911073,
        iso_key("jpn"@) == 6975598,
        iso_key("kor"@) == 7040882,
        iso_key("lav"@) == 7102838,
        iso_key("lit"@) == 7104884,
        iso_key("nob"@) == 7237474,
        iso_key("pes"@) == 7366003,
        iso_key("pol"@) == 7368556,
        iso_key("por"@) == 7368562,
        iso_key("ron"@) == 7499630,
        iso_key("rus"@) == 7501171,
        iso_key("srp"@) == 7565936,
        iso_key("slk"@) == 7564395,
        iso_key("slv"@) == 7564406,
        iso_key("spa"@) == 7565409,
        iso_key("swe"@) == 7567205,
        iso_key("tgl"@) == 7628652,
        iso_key("tha"@) == 7628897,
        iso_key("tur"@) == 7632242,
        iso_key("ukr"@) == 7695218,
        iso_key("urd"@) == 7696996,
        iso_key("vie"@) == 7760229,
{
    reveal(iso_key);
    reveal_strlit("eng");
    reveal_strlit("ara");
    reveal_strlit("aze");
    reveal_strlit("ben");
    reveal_strlit("bul");
    reveal_strlit("cat");
    reveal_strlit("cmn");
    reveal_strlit("ces");
    reveal_strlit("dan");
    reveal_strlit("nld");
    reveal_strlit("epo");
    reveal_strlit("est");
    reveal_strlit("fin");
    reveal_strlit("fra");
    reveal_strlit("deu");
    reveal_strlit("ell");
    reveal_strlit("heb");
    reveal_strlit("hin");
    reveal_strlit("hun");
    reveal_strlit("ind");
    reveal_strlit("ita");
    reveal_strlit("jpn");
    reveal_strlit("kor");
    reveal_strlit("lav");
    reveal_strlit("lit");
    reveal_strlit("nob");
    reveal_strlit("pes");
    reveal_strlit("pol");
    reveal_strlit("por");
    reveal_strlit("ron");
    reveal_strlit("rus");
    reveal_strlit("srp");
    reveal_strlit("slk");
    reveal_strlit("slv");
    reveal_strlit("spa");
    reveal_strlit("swe");
    reveal_strlit("tgl");
    reveal_strlit("tha");
    reveal_strlit("tur");
    reveal_strlit("ukr");
    reveal_strlit("urd");
    reveal_strlit("vie");
}

proof fn lemma_iso_0()
    ensures
        internal_code_spec("eng"@) == Some("en"@),
        internal_code_spec("ara"@) == Some("ar"@),
        internal_code_spec("aze"@) == Some("az"@),
        internal_code_spec("ben"@) == Some("bn"@),
        internal_code_spec("bul"@) == Some("bg"@),
        internal_code_spec("cat"@) == Some("ca"@),
        internal_code_spec("cmn"@) == Some("zh"@),
{
    lemma_iso_keys();
}

proof fn lemma_iso_7()
    ensures
        internal_code_spec("ces"@) == Some("cs"@),
        internal_code_spec("dan"@) == Some("da"@),
        internal_code_spec("nld"@) == Some("nl"@),
        internal_code_spec("epo"@) == Some("eo"@),
        internal_code_spec("est"@) == Some("et"@),
        internal_code_spec("fin"@) == Some("fi"@),
        internal_code_spec("fra"@) == Some("fr"@),
{
    lemma_iso_keys();
}

proof fn lemma_iso_14()
    ensures
        internal_code_spec("deu"@) == Some("de"@),
        internal_code_spec("ell"@) == Some("el"@),
        internal_code_spec("heb"@) == Some("he"@),
        internal_code_spec("hin"@) == Some("hi"@),
        internal_code_spec("hun"@) == Some("hu"@),
        internal_code_spec("ind"@) == Some("id"@),
        internal_code_spec("ita"@) == Some("it"@),
{
    lemma_iso_keys();
}

proof fn lemma_iso_21()
    ensures
        internal_code_spec("jpn"@) == Some("ja"@),
        internal_code_spec("kor"@) == Some("ko"@),
        internal_code_spec("lav"@) == Some("lv"@),
        internal_code_spec("lit"@) == Some("lt"@),
        internal_code_spec("nob"@) == Some("nb"@),
        internal_code_spec("pes"@) == Some("fa"@),
        internal_code_spec("pol"@) == Some("pl"@),
{
    lemma_iso_keys();
}

proof fn lemma_iso_28()
    ensures
        internal_code_spec("por"@) == Some("pt"@),
        internal_code_spec("ron"@) == Some("ro"@),
        internal_code_spec("rus"@) == Some("ru"@),
        internal_code_spec("srp"@) == Some("sr"@),
        internal_code_spec("slk"@) == Some("sk"@),
        internal_code_spec("slv"@) == Some("sl"@),
        internal_code_spec("spa"@) == Some("es"@),
{
    lemma_iso_keys();
}

proof fn lemma_iso_35()
    ensures
        internal_code_spec("swe"@) == Some("sv"@),
        internal_code_spec("tgl"@) == Some("tl"@),
        internal_code_spec("tha"@) == Some("th"@),
        internal_code_spec("tur"@) == Some("tr"@),
        internal_code_spec("ukr"@) == Some("uk"@),
        internal_code_spec("urd"@) == Some("ur"@),
        internal_code_spec("vie"@) == Some("vi"@),
{
    lemma_iso_keys();
}

/// The languages that statistical detection finds by their ISO codes, by name.
pub proof fn law_detected_languages()
    ensures
        language_of_iso(known(), "eng"@) matches Some(l) && l.name@ == "English"@,
        language_of_iso(known(), "ara"@) matches Some(l) && l.name@ == "Arabic"@,
        language_of_iso(known(), "aze"@) matches Some(l) && l.name@ == "Azerbaijani"@,
        language_of_iso(known(), "ben"@) matches Some(l) && l.name@ == "Bengali"@,
        language_of_iso(known(), "bul"@) matches Some(l) && l.name@ == "Bulgarian"@,
        language_of_iso(known(), "cat"@) matches Some(l) && l.name@ == "Catalan"@,
        language_of_iso(known(), "cmn"@) matches Some(l) && l.name@ == "Chinese"@,
        language_of_iso(known(), "ces"@) matches Some(l) && l.name@ == "Czech"@,
        language_of_iso(known(), "dan"@) matches Some(l) && l.name@ == "Danish"@,
        language_of_iso(known(), "nld"@) matches Some(l) && l.name@ == "Dutch"@,
        language_of_iso(known(), "epo"@) matches Some(l) && l.name@ == "Esperanto"@,
        language_of_iso(known(), "est"@) matches Some(l) && l.name@ == "Estonian"@,
        language_of_iso(known(), "fin"@) matches Some(l) && l.name@ == "Finnish"@,
        language_of_iso(known(), "fra"@) matches Some(l) && l.name@ == "French"@,
        language_of_iso(known(), "deu"@) matches Some(l) && l.name@ == "German"@,
        language_of_iso(known(), "ell"@) matches Some(l) && l.name@ == "Greek"@,
        language_of_iso(known(), "heb"@) matches Some(l) && l.name@ == "Hebrew"@,
        language_of_iso(known(), "hin"@) matches Some(l) && l.name@ == "Hindi"@,
        language_of_iso(known(), "hun"@) matches Some(l) && l.name@ == "Hungarian"@,
        language_of_iso(known(), "ind"@) matches Some(l) && l.name@ == "Indonesian"@,
        language_of_iso(known(), "ita"@) matches Some(l) && l.name@ == "Italian"@,
        language_of_iso(known(), "jpn"@) matches Some(l) && l.name@ == "Japanese"@,
        language_of_iso(known(), "kor"@) matches Some(l) && l.name@ == "Korean"@,
        language_of_iso(known(), "lav"@) matches Some(l) && l.name@ == "Latvian"@,
        language_of_iso(known(), "lit"@) matches Some(l) && l.name@ == "Lithuanian"@,
        language_of_iso(known(), "nob"@) matches Some(l) && l.name@ == "Norwegian"@,
        language_of_iso(known(), "pes"@) matches Some(l) && l.name@ == "Persian"@,
        language_of_iso(known(), "pol"@) matches Some(l) && l.name@ == "Polish"@,
        language_of_iso(known(), "por"@) matches Some(l) && l.name@ == "Portuguese"@,
        language_of_iso(known(), "ron"@) matches Some(l) && l.name@ == "Romanian"@,
        language_of_iso(known(), "rus"@) matches Some(l) && l.name@ == "Russian"@,
        language_of_iso(known(), "srp"@) matches Some(l) && l.name@ == "Serbian"@,
        language_of_iso(known(), "slk"@) matches Some(l) && l.name@ == "Slovak"@,
        language_of_iso(known(), "slv"@) matches Some(l) && l.name@ == "Slovenian"@,
        language_of_iso(known(), "spa"@) matches Some(l) && l.name@ == "Spanish"@,
        language_of_iso(known(), "swe"@) matches Some(l) && l.name@ == "Swedish"@,
        language_of_iso(known(), "tgl"@) matches Some(l) && l.name@ == "Tagalog"@,
        language_of_iso(known(), "tha"@) matches Some(l) && l.name@ == "Thai"@,
        language_of_iso(known(), "tur"@) matches Some(l) && l.name@ == "Turkish"@,
        language_of_iso(known(), "ukr"@) matches Some(l) && l.name@ == "Ukrainian"@,
        language_of_iso(known(), "urd"@) matches Some(l) && l.name@ == "Urdu"@,
        language_of_iso(known(), "vie"@) matches Some(l) && l.name@ == "Vietnamese"@,
{
    law_languages_on_offer();
    lemma_iso_0();
    lemma_iso_7();
    lemma_iso_14();
    lemma_iso_21();
    lemma_iso_28();
    lemma_iso_35();
}

} // verus!
