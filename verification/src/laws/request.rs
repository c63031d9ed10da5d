//! Laws of validating requests.

use vstd::prelude::*;

use crate::args::Args;
use crate::error_response::ErrorResponse;
use crate::request::{
    empty_or_blank, first_missing, is_format, is_missing, key_accepted, params_error, params_view,
    payload_spec, total_bytes, total_chars, PayloadKind, QueryText, TranslateRequest,
};
use crate::text::{decimal_spec, is_blank, is_white_space, opt_text};

verus! {

/// A string is one text, a list is its strings in order.
pub proof fn law_texts_of_a_request(q: String, list: Vec<String>, i: int)
    ensures
        QueryText::Single(q).items() == seq![q@],
        QueryText::Batch(list).items().len() == list@.len(),
        0 <= i < list@.len() ==> QueryText::Batch(list).items()[i] == list@[i]@,
{
}

/// The length of texts together is the sum of their lengths, in characters or in bytes of UTF-8.
pub proof fn law_lengths_add_up(items: Seq<Seq<char>>, item: Seq<char>)
    ensures
        total_chars(Seq::empty()) == 0,
        total_chars(items.push(item)) == total_chars(items) + item.len(),
        total_bytes(Seq::empty()) == 0,
        total_bytes(items.push(item)) == total_bytes(items) + vstd::utf8::encode_utf8(item).len(),
{
    assert(items.push(item).drop_last() =~= items);
}

/// Whether a text has a character that is not white space.
pub open spec fn says_something(s: Seq<char>) -> bool {
    exists|k: int| 0 <= k < s.len() && !is_white_space(#[trigger] s[k])
}

/// There is something to translate where there is a text and each text has a character that is not
/// white space.
pub proof fn law_something_to_translate(items: Seq<Seq<char>>)
    ensures
        !empty_or_blank(items) <==> items.len() > 0 && forall|i: int|
            0 <= i < items.len() ==> says_something(#[trigger] items[i]),
{
    assert forall|i: int| 0 <= i < items.len() implies is_blank(#[trigger] items[i])
        == !says_something(items[i]) by {}
    if empty_or_blank(items) && items.len() > 0 {
        let i = choose|i: int| 0 <= i < items.len() && is_blank(#[trigger] items[i]);
        assert(!says_something(items[i]));
    }
}

/// A body is read by what its content type begins with.
pub proof fn law_content_types(rest: Seq<char>, content_type: Seq<char>)
    ensures
        payload_spec("application/json"@ + rest) == Some(PayloadKind::Json),
        payload_spec("application/x-www-form-urlencoded"@ + rest) == Some(PayloadKind::UrlEncoded),
        payload_spec("multipart/form-data"@ + rest) == Some(PayloadKind::Multipart),
        payload_spec(content_type) matches Some(k) ==> {
            let prefix = match k {
                PayloadKind::Json => "application/json"@,
                PayloadKind::UrlEncoded => "application/x-www-form-urlencoded"@,
                PayloadKind::Multipart => "multipart/form-data"@,
            };
            content_type == prefix + content_type.skip(prefix.len() as int)
        },
{
    reveal_strlit("application/json");
    reveal_strlit("application/x-www-form-urlencoded");
    reveal_strlit("multipart/form-data");
    let j = "application/json"@;
    let u = "application/x-www-form-urlencoded"@;
    let m = "multipart/form-data"@;
    assert((j + rest).take(16) =~= j);
    assert((u + rest).take(33) =~= u);
    assert((m + rest).take(19) =~= m);
    assert((u + rest).take(16)[12] == 'x');
    assert((m + rest).take(16)[0] == 'm');
    assert((m + rest).len() >= 33 ==> (m + rest).take(33)[0] == 'm');
    if crate::text::begins_with(content_type, j) {
        assert(content_type =~= j + content_type.skip(16));
    } else if crate::text::begins_with(content_type, u) {
        assert(content_type =~= u + content_type.skip(33));
    } else if crate::text::begins_with(content_type, m) {
        assert(content_type =~= m + content_type.skip(19));
    }
}

/// The parameter that is told to be missing is the first that is absent or blank.
pub proof fn law_missing_parameters(
    a: Seq<(Seq<char>, Option<Seq<char>>)>,
    name: Seq<char>,
    value: Seq<char>,
    b: Seq<(Seq<char>, Option<Seq<char>>)>,
)
    ensures
        first_missing(Seq::empty()) is None,
        first_missing(seq![(name, None)]) == Some(name),
        is_blank(value) ==> first_missing(seq![(name, Some(value))]) == Some(name),
        !is_blank(value) ==> first_missing(seq![(name, Some(value))]) is None,
        first_missing(a) is Some ==> first_missing(a + b) == first_missing(a),
        first_missing(a) is None ==> first_missing(a + b) == first_missing(b),
    decreases a.len(),
{
    let absent = seq![(name, None::<Seq<char>>)];
    let given = seq![(name, Some(value))];
    assert(first_missing(Seq::empty()) is None);
    assert(absent.drop_first() =~= Seq::empty());
    assert(given.drop_first() =~= Seq::empty());
    if a.len() == 0 {
        assert(a + b =~= b);
    } else {
        assert((a + b).first() == a.first());
        assert((a + b).drop_first() =~= a.drop_first() + b);
        law_missing_parameters(a.drop_first(), name, value, b);
    }
}

/// Required parameters are taken by name and value, in order.
pub proof fn law_required_parameters(required: Seq<(&str, &Option<String>)>, i: int)
    requires
        0 <= i < required.len(),
    ensures
        params_view(required).len() == required.len(),
        params_view(required)[i].0 == required[i].0@,
        params_view(required)[i].1 == opt_text(*required[i].1),
        is_missing(None),
        is_missing(opt_text(*required[i].1)) <==> (required[i].1 matches Some(v) ==> is_blank(v@)),
{
}

/// A key is accepted where it is the key of the service to the letter, or the service has none.
pub proof fn law_keys(given: Seq<char>, asked: Seq<char>)
    ensures
        key_accepted(Some(asked), asked),
        given != asked && asked.len() > 0 ==> !key_accepted(Some(given), asked),
        asked.len() > 0 ==> !key_accepted(None, asked),
        asked.len() == 0 ==> key_accepted(None, asked) && key_accepted(Some(given), asked),
{
}

/// What a request is refused for, in which order and in which words; and that it passes where there
/// is nothing to refuse it for.
pub proof fn law_what_is_refused(
    body: TranslateRequest,
    args: Args,
    required: Seq<(Seq<char>, Option<Seq<char>>)>,
)
    ensures
        ({
            let e = params_error(body, args, required);
            let texts = body.q->0.items();
            let blank = body.q is None || empty_or_blank(texts);
            let missing = first_missing(required);
            let refused = args.api_key@.len() > 0 && opt_text(body.api_key) != Some(args.api_key@);
            let many = body.q->0 is Batch && texts.len() > args.batch_limit;
            let long = total_chars(texts) > args.char_limit;
            &&& blank ==> e == Some(("Invalid request: missing q parameter"@, 400u16))
            &&& !blank && missing is Some ==> e == Some(
                ("Invalid request: missing "@ + missing->0 + " parameter"@, 400u16),
            )
            &&& !blank && missing is None && refused ==> e == Some(("Invalid API key"@, 403u16))
            &&& !blank && missing is None && !refused && many ==> e == Some(
                (
                    "Invalid request: batch size ("@ + decimal_spec(texts.len())
                        + ") exceeds limit ("@ + decimal_spec(args.batch_limit as nat) + ")"@,
                    400u16,
                ),
            )
            &&& !blank && missing is None && !refused && !many && long ==> e == Some(
                (
                    "Invalid request: request ("@ + decimal_spec(total_chars(texts))
                        + ") exceeds text limit ("@ + decimal_spec(args.char_limit as nat) + ")"@,
                    400u16,
                ),
            )
            &&& !blank && missing is None && !refused && !many && !long ==> e is None
        }),
{
}

/// An error says its words under its status.
pub proof fn law_what_an_error_says(e: ErrorResponse, message: Seq<char>, status: u16)
    ensures
        e.says(message, status) <==> e.error@ == message && e.status == status,
{
}

/// The formats are `text` and `html`.
pub proof fn law_formats(format: Seq<char>)
    ensures
        is_format("text"@),
        is_format("html"@),
        is_format(format) ==> format == "text"@ || format == "html"@,
{
}

} // verus!
