//! Plain text helpers: comparing, trimming, splitting into words, decimal numbers.

use vstd::prelude::*;

verus! {

/// The characters with the Unicode property `White_Space`.
pub open spec fn is_white_space(c: char) -> bool {
    let u = c as u32;
    ||| 0x09 <= u <= 0x0D
    ||| u == 0x20
    ||| u == 0x85
    ||| u == 0xA0
    ||| u == 0x1680
    ||| 0x2000 <= u <= 0x200A
    ||| u == 0x2028
    ||| u == 0x2029
    ||| u == 0x202F
    ||| u == 0x205F
    ||| u == 0x3000
}

/// What is taken off the ends of a text.
#[derive(Clone, Copy)]
pub enum Edge {
    /// White space.
    Space,
    /// White space, quotes and parentheses, as they surround a language label.
    Label,
}

/// Whether `edge` takes `c` off.
pub open spec fn drops(edge: Edge, c: char) -> bool {
    is_white_space(c) || (edge is Label && (c == '"' || c == '\'' || c == '(' || c == ')'))
}

/// `s` without the longest prefix of characters that `edge` takes off.
pub open spec fn strip_start(s: Seq<char>, edge: Edge) -> Seq<char>
    decreases s.len(),
{
    if s.len() > 0 && drops(edge, s.first()) {
        strip_start(s.drop_first(), edge)
    } else {
        s
    }
}

/// `s` without the longest suffix of characters that `edge` takes off.
pub open spec fn strip_end(s: Seq<char>, edge: Edge) -> Seq<char>
    decreases s.len(),
{
    if s.len() > 0 && drops(edge, s.last()) {
        strip_end(s.drop_last(), edge)
    } else {
        s
    }
}

/// `s` without what `edge` takes off at either end.
pub open spec fn strip(s: Seq<char>, edge: Edge) -> Seq<char> {
    strip_end(strip_start(s, edge), edge)
}

/// What `edge` takes off the front of `s`.
pub open spec fn lead(s: Seq<char>, edge: Edge) -> Seq<char> {
    s.take(s.len() - strip_start(s, edge).len())
}

/// What `edge` takes off the back of `s`.
pub open spec fn tail(s: Seq<char>, edge: Edge) -> Seq<char> {
    strip_start(s, edge).skip(strip(s, edge).len() as int)
}

/// `s` without white space at either end.
pub open spec fn trim_spec(s: Seq<char>) -> Seq<char> {
    strip(s, Edge::Space)
}

/// Whether nothing but white space is in `s`.
pub open spec fn is_blank(s: Seq<char>) -> bool {
    forall|i: int| 0 <= i < s.len() ==> is_white_space(#[trigger] s[i])
}

/// The length of the longest prefix of `s` without white space.
pub open spec fn word_len(s: Seq<char>) -> nat
    decreases s.len(),
{
    if s.len() > 0 && !is_white_space(s.first()) {
        1 + word_len(s.drop_first())
    } else {
        0
    }
}

/// The words of `s`: its maximal runs of characters that are not white space.
pub open spec fn words_spec(s: Seq<char>) -> Seq<Seq<char>>
    decreases s.len(),
    via words_decreases
{
    let t = strip_start(s, Edge::Space);
    if t.len() == 0 {
        Seq::empty()
    } else {
        seq![t.take(word_len(t) as int)] + words_spec(t.skip(word_len(t) as int))
    }
}

#[via_fn]
proof fn words_decreases(s: Seq<char>) {
    let t = strip_start(s, Edge::Space);
    lemma_strip_start(s, Edge::Space);
    lemma_word_len(t);
}

/// The words `ws` with one space between each two of them.
pub open spec fn join_spec(ws: Seq<Seq<char>>) -> Seq<char>
    decreases ws.len(),
{
    if ws.len() == 0 {
        Seq::empty()
    } else if ws.len() == 1 {
        ws[0]
    } else {
        join_spec(ws.drop_last()) + seq![' '] + ws.last()
    }
}

/// The decimal digit of value `d`.
pub open spec fn digit_char(d: nat) -> char {
    (d + 48) as char
}

/// `n` in decimal, without leading zeros.
pub open spec fn decimal_spec(n: nat) -> Seq<char>
    decreases n,
{
    if n < 10 {
        seq![digit_char(n)]
    } else {
        decimal_spec(n / 10).push(digit_char(n % 10))
    }
}

/// Whether `c` is one of the ten ASCII digits.
pub open spec fn is_digit(c: char) -> bool {
    '0' <= c <= '9'
}

/// Whether `s` is made of ASCII digits, with at least one.
pub open spec fn is_numeral(s: Seq<char>) -> bool {
    s.len() > 0 && forall|i: int| 0 <= i < s.len() ==> is_digit(#[trigger] s[i])
}

/// The number that the digits `s` write.
pub open spec fn numeral_value(s: Seq<char>) -> int
    decreases s.len(),
{
    if s.len() == 0 {
        0
    } else {
        10 * numeral_value(s.drop_last()) + (s.last() as u32 - 48)
    }
}

/// Whether `s` begins with `p`.
pub open spec fn begins_with(s: Seq<char>, p: Seq<char>) -> bool {
    p.len() <= s.len() && s.take(p.len() as int) == p
}

/// Whether `s` ends in `p`.
pub open spec fn ends_in(s: Seq<char>, p: Seq<char>) -> bool {
    p.len() <= s.len() && s.skip(s.len() - p.len()) == p
}

/// The texts of a list of strings.
pub open spec fn texts(v: Seq<String>) -> Seq<Seq<char>> {
    v.map_values(|s: String| s@)
}

/// The text of an optional string.
pub open spec fn opt_text(s: Option<String>) -> Option<Seq<char>> {
    match s {
        Some(t) => Some(t@),
        None => None,
    }
}

/// The text of an optional string slice.
pub open spec fn opt_str(s: Option<&str>) -> Option<Seq<char>> {
    match s {
        Some(t) => Some(t@),
        None => None,
    }
}

pub proof fn lemma_strip_start(s: Seq<char>, edge: Edge)
    ensures
        strip_start(s, edge).len() <= s.len(),
        strip_start(s, edge) == s.skip(s.len() - strip_start(s, edge).len()),
        strip_start(s, edge).len() > 0 ==> !drops(edge, strip_start(s, edge).first()),
        forall|i: int|
            0 <= i < s.len() - strip_start(s, edge).len() ==> drops(edge, #[trigger] s[i]),
    decreases s.len(),
{
    if s.len() > 0 && drops(edge, s.first()) {
        let r = s.drop_first();
        lemma_strip_start(r, edge);
        let k = r.len() - strip_start(r, edge).len();
        assert(r.skip(k) == s.skip(k + 1));
        assert forall|i: int| 0 <= i < s.len() - strip_start(s, edge).len() implies drops(
            edge,
            #[trigger] s[i],
        ) by {
            if i > 0 {
                assert(s[i] == r[i - 1]);
            }
        }
    } else {
        assert(s.skip(0) == s);
    }
}

pub proof fn lemma_strip_end(s: Seq<char>, edge: Edge)
    ensures
        strip_end(s, edge).len() <= s.len(),
        strip_end(s, edge) == s.take(strip_end(s, edge).len() as int),
        strip_end(s, edge).len() > 0 ==> !drops(edge, strip_end(s, edge).last()),
        forall|i: int| strip_end(s, edge).len() <= i < s.len() ==> drops(edge, #[trigger] s[i]),
    decreases s.len(),
{
    if s.len() > 0 && drops(edge, s.last()) {
        let r = s.drop_last();
        lemma_strip_end(r, edge);
        let n = strip_end(r, edge).len() as int;
        assert(r.take(n) == s.take(n));
        assert forall|i: int| n <= i < s.len() implies drops(edge, #[trigger] s[i]) by {
            if i < s.len() - 1 {
                assert(s[i] == r[i]);
            }
        }
    } else {
        assert(s.take(s.len() as int) == s);
    }
}

pub proof fn lemma_word_len(s: Seq<char>)
    ensures
        word_len(s) <= s.len(),
        forall|i: int| 0 <= i < word_len(s) ==> !is_white_space(#[trigger] s[i]),
        word_len(s) < s.len() ==> is_white_space(s[word_len(s) as int]),
        s.len() > 0 && !is_white_space(s[0]) ==> word_len(s) > 0,
    decreases s.len(),
{
    if s.len() > 0 && !is_white_space(s.first()) {
        let r = s.drop_first();
        lemma_word_len(r);
        assert forall|i: int| 0 <= i < word_len(s) implies !is_white_space(#[trigger] s[i]) by {
            if i > 0 {
                assert(s[i] == r[i - 1]);
            }
        }
        if word_len(s) < s.len() {
            assert(s[word_len(s) as int] == r[word_len(r) as int]);
        }
    }
}

/// A text in which `edge` takes nothing off the front but the first `k` characters.
pub proof fn lemma_strip_start_is(s: Seq<char>, edge: Edge, k: int)
    requires
        0 <= k <= s.len(),
        forall|i: int| 0 <= i < k ==> drops(edge, #[trigger] s[i]),
        k < s.len() ==> !drops(edge, s[k]),
    ensures
        strip_start(s, edge) == s.skip(k),
    decreases k,
{
    if k == 0 {
        assert(s.skip(0) == s);
    } else {
        let r = s.drop_first();
        assert(drops(edge, s[0]));
        assert forall|i: int| 0 <= i < k - 1 implies drops(edge, #[trigger] r[i]) by {
            assert(r[i] == s[i + 1]);
        }
        lemma_strip_start_is(r, edge, k - 1);
        assert(r.skip(k - 1) == s.skip(k));
    }
}

/// A text of which `edge` leaves the first `n` characters when it works from the back.
pub proof fn lemma_strip_end_is(s: Seq<char>, edge: Edge, n: int)
    requires
        0 <= n <= s.len(),
        forall|i: int| n <= i < s.len() ==> drops(edge, #[trigger] s[i]),
        n > 0 ==> !drops(edge, s[n - 1]),
    ensures
        strip_end(s, edge) == s.take(n),
    decreases s.len() - n,
{
    if n == s.len() {
        assert(s.take(n) == s);
    } else {
        let r = s.drop_last();
        assert(drops(edge, s[s.len() - 1]));
        lemma_strip_end_is(r, edge, n);
        assert(r.take(n) == s.take(n));
    }
}

pub proof fn lemma_word_len_is(s: Seq<char>, n: int)
    requires
        0 <= n <= s.len(),
        forall|i: int| 0 <= i < n ==> !is_white_space(#[trigger] s[i]),
        n < s.len() ==> is_white_space(s[n]),
    ensures
        word_len(s) == n,
    decreases n,
{
    if n > 0 {
        let r = s.drop_first();
        assert(!is_white_space(s[0]));
        assert forall|i: int| 0 <= i < n - 1 implies !is_white_space(#[trigger] r[i]) by {
            assert(r[i] == s[i + 1]);
        }
        lemma_word_len_is(r, n - 1);
    }
}

/// A text is blank exactly where trimming leaves nothing of it.
pub proof fn lemma_blank_trims_to_nothing(s: Seq<char>)
    ensures
        is_blank(s) <==> trim_spec(s).len() == 0,
{
    let t = strip_start(s, Edge::Space);
    lemma_strip_start(s, Edge::Space);
    lemma_strip_end(t, Edge::Space);
    let k = s.len() - t.len();
    if is_blank(s) {
        if t.len() > 0 {
            assert(t[0] == s[k]);
        }
    }
    if trim_spec(s).len() == 0 {
        if t.len() > 0 {
            assert(drops(Edge::Space, t[0]));
        }
        assert forall|i: int| 0 <= i < s.len() implies is_white_space(#[trigger] s[i]) by {
            assert(drops(Edge::Space, s[i]));
        }
    }
}

/// Trimming leaves no white space at either end, and changes nothing the second time.
pub proof fn lemma_strip_is_final(s: Seq<char>, edge: Edge)
    ensures
        strip(s, edge).len() > 0 ==> !drops(edge, strip(s, edge).first()) && !drops(
            edge,
            strip(s, edge).last(),
        ),
        strip(strip(s, edge), edge) == strip(s, edge),
{
    let t = strip_start(s, edge);
    lemma_strip_start(s, edge);
    lemma_strip_end(t, edge);
    let r = strip(s, edge);
    if r.len() > 0 {
        assert(r[0] == t[0]);
        lemma_strip_start_is(r, edge, 0);
        assert(r.skip(0) == r);
        lemma_strip_end_is(r, edge, r.len() as int);
        assert(r.take(r.len() as int) == r);
    }
}

/// Tells whether `c` is white space.
pub fn is_space(c: char) -> (b: bool)
    ensures
        b == is_white_space(c),
{
    let u: u32 = c as u32;
    (0x09 <= u && u <= 0x0D) || u == 0x20 || u == 0x85 || u == 0xA0 || u == 0x1680 || (0x2000 <= u
        && u <= 0x200A) || u == 0x2028 || u == 0x2029 || u == 0x202F || u == 0x205F || u == 0x3000
}

fn dropped(edge: Edge, c: char) -> (b: bool)
    ensures
        b == drops(edge, c),
{
    if is_space(c) {
        return true;
    }
    match edge {
        Edge::Space => false,
        Edge::Label => c == '"' || c == '\'' || c == '(' || c == ')',
    }
}

/// The characters of a string, in order.
pub fn chars_of(s: &str) -> (v: Vec<char>)
    ensures
        v@ == s@,
{
    let mut v: Vec<char> = Vec::new();
    for c in it: s.chars()
        invariant
            it.seq() == s@,
            v@ == s@.take(it.index() as int),
    {
        v.push(c);
    }
    v
}

/// Tells whether two strings hold the same text.
pub fn same(a: &str, b: &str) -> (r: bool)
    ensures
        r == (a@ == b@),
{
    a.to_owned() == b.to_owned()
}

/// Tells whether `s` begins with `prefix`.
pub fn has_prefix(s: &str, prefix: &str) -> (r: bool)
    ensures
        r == begins_with(s@, prefix@),
{
    let n: usize = prefix.unicode_len();
    if n > s.unicode_len() {
        return false;
    }
    same(s.substring_char(0, n), prefix)
}

/// Tells whether `s` ends in `suffix`.
pub fn has_suffix(s: &str, suffix: &str) -> (r: bool)
    ensures
        r == ends_in(s@, suffix@),
{
    let n: usize = s.unicode_len();
    let m: usize = suffix.unicode_len();
    if m > n {
        return false;
    }
    assert(s@.subrange(n - m, n as int) == s@.skip(n - m));
    same(s.substring_char(n - m, n), suffix)
}

/// What `edge` takes off the front of `s`, what it leaves, and what it takes off the back.
pub fn parts(s: &str, edge: Edge) -> (r: (String, String, String))
    ensures
        r.0@ == lead(s@, edge),
        r.1@ == strip(s@, edge),
        r.2@ == tail(s@, edge),
{
    let chars = chars_of(s);
    let mut from: usize = 0;
    while from < chars.len() && dropped(edge, chars[from])
        invariant
            from <= chars.len(),
            forall|i: int| 0 <= i < from ==> drops(edge, #[trigger] chars@[i]),
        decreases chars.len() - from,
    {
        from = from + 1;
    }
    let ghost t = s@.skip(from as int);
    proof {
        lemma_strip_start_is(s@, edge, from as int);
    }
    let mut to: usize = chars.len();
    while to > from && dropped(edge, chars[to - 1])
        invariant
            from <= to <= chars.len(),
            forall|i: int| to <= i < chars.len() ==> drops(edge, #[trigger] chars@[i]),
        decreases to - from,
    {
        to = to - 1;
    }
    proof {
        assert forall|i: int| to - from <= i < t.len() implies drops(edge, #[trigger] t[i]) by {
            assert(t[i] == chars@[i + from]);
        }
        lemma_strip_end_is(t, edge, to - from);
        assert(t.take(to - from) == s@.subrange(from as int, to as int));
        assert(s@.subrange(0, from as int) == lead(s@, edge));
        assert(s@.subrange(to as int, s@.len() as int) == tail(s@, edge));
    }
    (
        s.substring_char(0, from).to_owned(),
        s.substring_char(from, to).to_owned(),
        s.substring_char(to, chars.len()).to_owned(),
    )
}

/// `s` without what `edge` takes off at either end.
pub fn stripped(s: &str, edge: Edge) -> (r: String)
    ensures
        r@ == strip(s@, edge),
{
    parts(s, edge).1
}

/// `s` without white space at either end.
pub fn trim(s: &str) -> (r: String)
    ensures
        r@ == trim_spec(s@),
{
    stripped(s, Edge::Space)
}

/// Tells whether nothing but white space is in `s`.
pub fn blank(s: &str) -> (r: bool)
    ensures
        r == is_blank(s@),
{
    proof {
        lemma_blank_trims_to_nothing(s@);
    }
    trim(s).as_str().is_empty()
}

/// The words of `s`.
pub fn words(s: &str) -> (r: Vec<String>)
    ensures
        texts(r@) == words_spec(s@),
{
    let chars = chars_of(s);
    let mut out: Vec<String> = Vec::new();
    let mut at: usize = 0;
    proof {
        assert(s@.skip(0) == s@);
        assert(texts(out@) + words_spec(s@) == words_spec(s@));
    }
    while at < chars.len()
        invariant
            at <= chars.len(),
            chars@ == s@,
            texts(out@) + words_spec(s@.skip(at as int)) == words_spec(s@),
        decreases chars.len() - at,
    {
        let ghost rest = s@.skip(at as int);
        let ghost done = texts(out@);
        let mut from: usize = at;
        while from < chars.len() && is_space(chars[from])
            invariant
                at <= from <= chars.len(),
                chars@ == s@,
                rest == s@.skip(at as int),
                forall|i: int| 0 <= i < from - at ==> drops(Edge::Space, #[trigger] rest[i]),
            decreases chars.len() - from,
        {
            assert(rest[from - at] == chars@[from as int]);
            from = from + 1;
        }
        let ghost t = s@.skip(from as int);
        proof {
            if from < chars.len() {
                assert(rest[from - at] == chars@[from as int]);
            }
            lemma_strip_start_is(rest, Edge::Space, from - at);
            assert(rest.skip(from - at) == t);
        }
        let mut to: usize = from;
        while to < chars.len() && !is_space(chars[to])
            invariant
                from <= to <= chars.len(),
                chars@ == s@,
                t == s@.skip(from as int),
                forall|i: int| 0 <= i < to - from ==> !is_white_space(#[trigger] t[i]),
            decreases chars.len() - to,
        {
            assert(t[to - from] == chars@[to as int]);
            to = to + 1;
        }
        if to > from {
            out.push(s.substring_char(from, to).to_owned());
        }
        proof {
            if to < chars.len() {
                assert(t[to - from] == chars@[to as int]);
            }
            lemma_word_len_is(t, to - from);
            assert(t.skip(to - from) == s@.skip(to as int));
            if to > from {
                assert(t.take(to - from) == s@.subrange(from as int, to as int));
                let w = s@.subrange(from as int, to as int);
                assert(words_spec(rest) == seq![w] + words_spec(s@.skip(to as int)));
                assert(texts(out@) == done.push(w));
                assert(texts(out@) + words_spec(s@.skip(to as int)) == done + (seq![w]
                    + words_spec(s@.skip(to as int))));
            } else {
                assert(t.len() == 0) by {
                    if t.len() > 0 {
                        assert(t[0] == chars@[from as int]);
                    }
                }
                assert(s@.skip(to as int) =~= Seq::empty());
                assert(words_spec(s@.skip(to as int)) == Seq::<Seq<char>>::empty()) by {
                    lemma_strip_start(s@.skip(to as int), Edge::Space);
                }
            }
        }
        at = to;
    }
    proof {
        lemma_strip_start(s@.skip(at as int), Edge::Space);
        assert(texts(out@) + Seq::<Seq<char>>::empty() == texts(out@));
    }
    out
}

/// The first `n` words of `ws`, with one space between each two of them.
pub fn join(ws: &Vec<String>, n: usize) -> (r: String)
    requires
        n <= ws@.len(),
    ensures
        r@ == join_spec(texts(ws@).take(n as int)),
{
    let mut out = String::new();
    let mut i: usize = 0;
    while i < n
        invariant
            i <= n <= ws@.len(),
            out@ == join_spec(texts(ws@).take(i as int)),
        decreases n - i,
    {
        let ghost before = texts(ws@).take(i as int);
        let ghost after = texts(ws@).take(i + 1);
        if i > 0 {
            out.append(" ");
        }
        out.append(ws[i].as_str());
        proof {
            reveal_strlit(" ");
            assert(" "@ == seq![' ']);
            assert(after.drop_last() == before);
            assert(after.last() == ws@[i as int]@);
        }
        i = i + 1;
    }
    out
}

fn digit(d: u128) -> (c: char)
    requires
        d < 10,
    ensures
        c == digit_char(d as nat),
{
    (d as u8 + 48) as char
}

/// `n` in decimal.
pub fn decimal(n: u128) -> (r: String)
    ensures
        r@ == decimal_spec(n as nat),
    decreases n,
{
    let mut out = if n < 10 {
        String::new()
    } else {
        decimal(n / 10)
    };
    out.push(digit(n % 10));
    out
}

} // verus!
