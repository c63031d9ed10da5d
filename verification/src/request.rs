//! Translation requests and their validation.

use vstd::prelude::*;

use crate::args::Args;
use crate::error_response::ErrorResponse;
use crate::text;

verus! {

/// `std::slice::from_ref` makes a slice of one element.
pub assume_specification<T>[ std::slice::from_ref::<T> ](s: &T) -> (r: &[T])
    ensures
        r@ == seq![*s],
;

/// `subtle::ConstantTimeEq::ct_eq` on byte slices tells whether they have the same length and the
/// same bytes. That its running time does not depend on the bytes is not stated.
#[verifier::external_body]
fn constant_time_eq(a: &[u8], b: &[u8]) -> (r: bool)
    ensures
        r == (a@ == b@),
{
    subtle::ConstantTimeEq::ct_eq(a, b).into()
}

/// The text to translate: one string, or several in one request.
#[derive(Clone, Debug, PartialEq, Eq)]
pub enum QueryText {
    Single(String),
    Batch(Vec<String>),
}

/// The number of bytes that texts take in UTF-8.
pub open spec fn total_bytes(items: Seq<Seq<char>>) -> nat
    decreases items.len(),
{
    if items.len() == 0 {
        0
    } else {
        total_bytes(items.drop_last()) + vstd::utf8::encode_utf8(items.last()).len()
    }
}

/// The number of characters of texts.
pub open spec fn total_chars(items: Seq<Seq<char>>) -> nat
    decreases items.len(),
{
    if items.len() == 0 {
        0
    } else {
        total_chars(items.drop_last()) + items.last().len()
    }
}

/// Whether there is nothing to translate, or nothing in one of the texts.
pub open spec fn empty_or_blank(items: Seq<Seq<char>>) -> bool {
    items.len() == 0 || exists|i: int| 0 <= i < items.len() && text::is_blank(#[trigger] items[i])
}

impl QueryText {
    /// The texts, in order.
    pub open spec fn items(self) -> Seq<Seq<char>> {
        match self {
            QueryText::Single(q) => seq![q@],
            QueryText::Batch(q) => text::texts(q@),
        }
    }

    /// The texts as a slice; a single text is a slice of one.
    pub fn as_slice(&self) -> (r: &[String])
        ensures
            text::texts(r@) == self.items(),
            r@.len() == self.items().len(),
    {
        match self {
            QueryText::Single(q) => {
                let r: &[String] = std::slice::from_ref(q);
                assert(text::texts(r@) =~= seq![q@]);
                r
            },
            QueryText::Batch(q) => q.as_slice(),
        }
    }

    /// Tells whether the request has a list of texts.
    pub fn is_batch(&self) -> (r: bool)
        ensures
            r == (self is Batch),
    {
        matches!(self, QueryText::Batch(_))
    }

    /// Tells whether there are no texts, or one of them is blank.
    pub fn is_empty_or_blank(&self) -> (r: bool)
        ensures
            r == empty_or_blank(self.items()),
    {
        let items = self.as_slice();
        let mut i: usize = 0;
        while i < items.len()
            invariant
                i <= items@.len(),
                text::texts(items@) == self.items(),
                forall|j: int| 0 <= j < i ==> !text::is_blank(#[trigger] self.items()[j]),
            decreases items@.len() - i,
        {
            assert(self.items()[i as int] == items@[i as int]@);
            if text::blank(items[i].as_str()) {
                return true;
            }
            i = i + 1;
        }
        items.len() == 0
    }

    /// The length of the texts together, in bytes.
    pub fn total_len(&self) -> (r: usize)
        requires
            total_bytes(self.items()) <= usize::MAX,
        ensures
            r == total_bytes(self.items()),
    {
        let items = self.as_slice();
        let ghost all = self.items();
        let mut sum: usize = 0;
        let mut i: usize = 0;
        while i < items.len()
            invariant
                i <= items@.len(),
                text::texts(items@) == all,
                total_bytes(all) <= usize::MAX,
                sum == total_bytes(all.take(i as int)),
            decreases items@.len() - i,
        {
            proof {
                let next = all.take(i + 1);
                assert(next.drop_last() == all.take(i as int));
                assert(next.last() == items@[i as int]@);
                lemma_total_bytes_grows(all, i + 1);
            }
            sum = sum + items[i].as_str().len();
            i = i + 1;
        }
        assert(all.take(all.len() as int) == all);
        sum
    }

    /// The length of the texts together, in characters.
    pub fn total_chars(&self) -> (r: u128)
        ensures
            r == total_chars(self.items()),
    {
        let items = self.as_slice();
        let ghost all = self.items();
        let mut sum: u128 = 0;
        let mut i: usize = 0;
        while i < items.len()
            invariant
                i <= items@.len(),
                text::texts(items@) == all,
                sum == total_chars(all.take(i as int)),
                sum <= i * 0xffff_ffff_ffff_ffff,
            decreases items@.len() - i,
        {
            proof {
                let next = all.take(i + 1);
                assert(next.drop_last() == all.take(i as int));
                assert(next.last() == items@[i as int]@);
            }
            let n: usize = items[i].as_str().unicode_len();
            assert(n <= 0xffff_ffff_ffff_ffff);
            assert(i * 0xffff_ffff_ffff_ffff + n <= u128::MAX);
            sum = sum + n as u128;
            i = i + 1;
        }
        assert(all.take(all.len() as int) == all);
        sum
    }
}

proof fn lemma_total_bytes_grows(items: Seq<Seq<char>>, n: int)
    requires
        0 <= n <= items.len(),
    ensures
        total_bytes(items.take(n)) <= total_bytes(items),
    decreases items.len(),
{
    if n == items.len() {
        assert(items.take(n) == items);
    } else {
        lemma_total_bytes_grows(items.drop_last(), n);
        assert(items.drop_last().take(n) == items.take(n));
    }
}

/// A translation request.
#[derive(Debug)]
pub struct TranslateRequest {
    pub q: Option<QueryText>,
    pub source: Option<String>,
    pub target: Option<String>,
    pub format: Option<String>,
    pub api_key: Option<String>,
    pub alternatives: Option<u32>,
    pub enable_cleanup_reporting: Option<bool>,
    pub enable_performance_reporting: Option<bool>,
}

/// A translation request as the parts of a multipart form.
pub struct MPTranslateRequest {
    pub q: Option<String>,
    pub source: Option<String>,
    pub target: Option<String>,
    pub format: Option<String>,
    pub api_key: Option<String>,
    pub alternatives: Option<u32>,
    pub enable_cleanup_reporting: Option<bool>,
    pub enable_performance_reporting: Option<bool>,
}

impl MPTranslateRequest {
    /// A form always asks for one text.
    pub fn into_translate_request(self) -> (r: TranslateRequest)
        ensures
            r.q == match self.q {
                Some(q) => Some(QueryText::Single(q)),
                None => None,
            },
            r.source == self.source,
            r.target == self.target,
            r.format == self.format,
            r.api_key == self.api_key,
            r.alternatives == self.alternatives,
            r.enable_cleanup_reporting == self.enable_cleanup_reporting,
            r.enable_performance_reporting == self.enable_performance_reporting,
    {
        TranslateRequest {
            q: match self.q {
                Some(q) => Some(QueryText::Single(q)),
                None => None,
            },
            source: self.source,
            target: self.target,
            format: self.format,
            api_key: self.api_key,
            alternatives: self.alternatives,
            enable_cleanup_reporting: self.enable_cleanup_reporting,
            enable_performance_reporting: self.enable_performance_reporting,
        }
    }
}

/// How the body of a request is to be read.
#[derive(Clone, Copy, Debug, PartialEq, Eq, Structural)]
pub enum PayloadKind {
    Json,
    UrlEncoded,
    Multipart,
}

/// The way to read a body with the given content type, if there is one.
pub open spec fn payload_spec(content_type: Seq<char>) -> Option<PayloadKind> {
    if text::begins_with(content_type, "application/json"@) {
        Some(PayloadKind::Json)
    } else if text::begins_with(content_type, "application/x-www-form-urlencoded"@) {
        Some(PayloadKind::UrlEncoded)
    } else if text::begins_with(content_type, "multipart/form-data"@) {
        Some(PayloadKind::Multipart)
    } else {
        None
    }
}

/// Chooses how to read a body. A request without a content type is given as an empty one.
pub fn payload_kind(content_type: &str) -> (r: Result<PayloadKind, ErrorResponse>)
    ensures
        match payload_spec(content_type@) {
            Some(k) => r == Ok::<PayloadKind, ErrorResponse>(k),
            None => r matches Err(e) && e.says("Unsupported content-type"@, 400),
        },
{
    if text::has_prefix(content_type, "application/json") {
        Ok(PayloadKind::Json)
    } else if text::has_prefix(content_type, "application/x-www-form-urlencoded") {
        Ok(PayloadKind::UrlEncoded)
    } else if text::has_prefix(content_type, "multipart/form-data") {
        Ok(PayloadKind::Multipart)
    } else {
        Err(ErrorResponse { error: "Unsupported content-type".to_owned(), status: 400 })
    }
}

/// The names and values of required parameters.
pub open spec fn params_view(required: Seq<(&str, &Option<String>)>) -> Seq<
    (Seq<char>, Option<Seq<char>>),
> {
    required.map_values(|p: (&str, &Option<String>)| (p.0@, text::opt_text(*p.1)))
}

/// Whether a parameter is absent or blank.
pub open spec fn is_missing(value: Option<Seq<char>>) -> bool {
    value is None || text::is_blank(value->0)
}

/// The name of the first parameter that is absent or blank.
pub open spec fn first_missing(required: Seq<(Seq<char>, Option<Seq<char>>)>) -> Option<Seq<char>>
    decreases required.len(),
{
    if required.len() == 0 {
        None
    } else if is_missing(required.first().1) {
        Some(required.first().0)
    } else {
        first_missing(required.drop_first())
    }
}

/// Whether a request brings the key that the service asks for, if it asks for one.
pub open spec fn key_accepted(given: Option<Seq<char>>, asked: Seq<char>) -> bool {
    asked.len() == 0 || given == Some(asked)
}

/// The error of a request, with its status, if it has one. The checks are made in this order:
/// the texts, the other required parameters, the key, the number of texts, their length.
pub open spec fn params_error(
    body: TranslateRequest,
    args: Args,
    required: Seq<(Seq<char>, Option<Seq<char>>)>,
) -> Option<(Seq<char>, u16)> {
    if body.q is None || empty_or_blank(body.q->0.items()) {
        Some(("Invalid request: missing q parameter"@, 400))
    } else if first_missing(required) is Some {
        Some(("Invalid request: missing "@ + first_missing(required)->0 + " parameter"@, 400))
    } else if !key_accepted(text::opt_text(body.api_key), args.api_key@) {
        Some(("Invalid API key"@, 403))
    } else if body.q->0 is Batch && body.q->0.items().len() > args.batch_limit {
        Some(
            (
                "Invalid request: batch size ("@ + text::decimal_spec(body.q->0.items().len())
                    + ") exceeds limit ("@ + text::decimal_spec(args.batch_limit as nat) + ")"@,
                400,
            ),
        )
    } else if total_chars(body.q->0.items()) > args.char_limit {
        Some(
            (
                "Invalid request: request ("@ + text::decimal_spec(
                    total_chars(body.q->0.items()),
                ) + ") exceeds text limit ("@ + text::decimal_spec(args.char_limit as nat) + ")"@,
                400,
            ),
        )
    } else {
        None
    }
}

/// The error for a request that goes beyond a limit.
fn limit_error(what: &str, size: u128, middle: &str, limit: usize) -> (r: ErrorResponse)
    ensures
        r.says(
            what@ + text::decimal_spec(size as nat) + middle@ + text::decimal_spec(limit as nat)
                + ")"@,
            400,
        ),
{
    let mut error = what.to_owned();
    error.append(text::decimal(size).as_str());
    error.append(middle);
    error.append(text::decimal(limit as u128).as_str());
    error.append(")");
    ErrorResponse { error, status: 400 }
}

/// Tells whether a request brings the key that the service asks for. Keys are compared in
/// constant time.
fn accepts_key(given: &Option<String>, asked: &String) -> (r: bool)
    ensures
        r == key_accepted(text::opt_text(*given), asked@),
{
    broadcast use vstd::utf8::encode_utf8_decode_utf8;

    if asked.as_str().is_empty() {
        return true;
    }
    match given {
        Some(key) => {
            proof {
                let k = vstd::utf8::encode_utf8(key@);
                let a = vstd::utf8::encode_utf8(asked@);
                if k == a {
                    assert(vstd::utf8::decode_utf8(k) == vstd::utf8::decode_utf8(a));
                }
            }
            constant_time_eq(key.as_str().as_bytes(), asked.as_str().as_bytes())
        },
        None => false,
    }
}

/// Validates a request: it has texts, none of them blank, it has the required parameters, it
/// brings the key of the service, and it keeps to the limits.
pub fn check_params(
    body: &TranslateRequest,
    args: &Args,
    required_params: &[(&str, &Option<String>)],
) -> (r: Result<bool, ErrorResponse>)
    ensures
        match params_error(*body, *args, params_view(required_params@)) {
            None => r == Ok::<bool, ErrorResponse>(true),
            Some((message, status)) => r matches Err(e) && e.says(message, status),
        },
{
    let q: &QueryText = match &body.q {
        Some(q) => q,
        None => {
            return Err(
                ErrorResponse {
                    error: "Invalid request: missing q parameter".to_owned(),
                    status: 400,
                },
            );
        },
    };
    if q.is_empty_or_blank() {
        return Err(
            ErrorResponse {
                error: "Invalid request: missing q parameter".to_owned(),
                status: 400,
            },
        );
    }
    let ghost required = params_view(required_params@);
    let mut i: usize = 0;
    assert(required.skip(0) == required);
    while i < required_params.len()
        invariant
            i <= required_params@.len(),
            required == params_view(required_params@),
            first_missing(required) == first_missing(required.skip(i as int)),
            body.q is Some,
            !empty_or_blank(body.q->0.items()),
        decreases required_params@.len() - i,
    {
        let (key, value) = required_params[i];
        let missing: bool = match value {
            Some(v) => text::blank(v.as_str()),
            None => true,
        };
        proof {
            let rest = required.skip(i as int);
            assert(rest.first() == (key@, text::opt_text(*value)));
            assert(rest.drop_first() == required.skip(i + 1));
        }
        if missing {
            let mut error = "Invalid request: missing ".to_owned();
            error.append(key);
            error.append(" parameter");
            return Err(ErrorResponse { error, status: 400 });
        }
        i = i + 1;
    }
    if !accepts_key(&body.api_key, &args.api_key) {
        return Err(ErrorResponse { error: "Invalid API key".to_owned(), status: 403 });
    }
    let count: usize = q.as_slice().len();
    if q.is_batch() && count > args.batch_limit {
        return Err(
            limit_error(
                "Invalid request: batch size (",
                count as u128,
                ") exceeds limit (",
                args.batch_limit,
            ),
        );
    }
    let request_len: u128 = q.total_chars();
    if request_len > args.char_limit as u128 {
        return Err(
            limit_error(
                "Invalid request: request (",
                request_len,
                ") exceeds text limit (",
                args.char_limit,
            ),
        );
    }
    Ok(true)
}

/// Whether `format` is a format that can be translated.
pub open spec fn is_format(format: Seq<char>) -> bool {
    format == "text"@ || format == "html"@
}

/// Validates the format of a request.
pub fn check_format(format: &str) -> (r: Result<bool, ErrorResponse>)
    ensures
        is_format(format@) ==> r == Ok::<bool, ErrorResponse>(true),
        !is_format(format@) ==> (r matches Err(e) && e.says(
            "Invalid format. Supported formats: text, html"@,
            400,
        )),
{
    if text::same(format, "text") || text::same(format, "html") {
        Ok(true)
    } else {
        Err(
            ErrorResponse {
                error: "Invalid format. Supported formats: text, html".to_owned(),
                status: 400,
            },
        )
    }
}

/// A request that passes validation has texts, none of them blank, as many and as long as the
/// limits allow, and brings the key of the service where one is set.
pub proof fn law_valid_request(
    body: TranslateRequest,
    args: Args,
    required: Seq<(Seq<char>, Option<Seq<char>>)>,
)
    requires
        params_error(body, args, required) is None,
    ensures
        body.q is Some,
        body.q->0.items().len() > 0,
        forall|i: int|
            0 <= i < body.q->0.items().len() ==> !text::is_blank(#[trigger] body.q->0.items()[i]),
        body.q->0 is Batch ==> body.q->0.items().len() <= args.batch_limit,
        total_chars(body.q->0.items()) <= args.char_limit,
        args.api_key@.len() > 0 ==> text::opt_text(body.api_key) == Some(args.api_key@),
        forall|i: int|
            0 <= i < required.len() ==> !is_missing((#[trigger] required[i]).1),
{
    lemma_none_missing(required);
}

proof fn lemma_none_missing(required: Seq<(Seq<char>, Option<Seq<char>>)>)
    requires
        first_missing(required) is None,
    ensures
        forall|i: int|
            0 <= i < required.len() ==> !is_missing((#[trigger] required[i]).1),
    decreases required.len(),
{
    if required.len() > 0 {
        let rest = required.drop_first();
        lemma_none_missing(rest);
        assert forall|i: int| 0 <= i < required.len() implies !is_missing(
            (#[trigger] required[i]).1,
        ) by {
            if i > 0 {
                assert(required[i] == rest[i - 1]);
            }
        }
    }
}

/// A request without the key of the service never passes, and is refused with 403 where nothing
/// is missing from it. A service without a key asks for none.
pub proof fn law_key_is_required(
    body: TranslateRequest,
    args: Args,
    required: Seq<(Seq<char>, Option<Seq<char>>)>,
)
    ensures
        args.api_key@.len() > 0 && text::opt_text(body.api_key) != Some(args.api_key@)
            ==> params_error(body, args, required) is Some,
        args.api_key@.len() > 0 && text::opt_text(body.api_key) != Some(args.api_key@)
            && body.q is Some && !empty_or_blank(body.q->0.items()) && first_missing(required) is None
            ==> (params_error(body, args, required)->0).1 == 403,
        args.api_key@.len() == 0 ==> params_error(body, args, required) != Some(
            ("Invalid API key"@, 403u16),
        ),
{
}

/// No error message tells anything of a key: where two requests with the same texts and parameters
/// are refused with the same status under the same limits, with whatever keys, they are refused in
/// the same words.
pub proof fn law_keys_are_not_disclosed(
    body: TranslateRequest,
    other: TranslateRequest,
    args: Args,
    other_args: Args,
    required: Seq<(Seq<char>, Option<Seq<char>>)>,
)
    requires
        body.q == other.q,
        args.batch_limit == other_args.batch_limit,
        args.char_limit == other_args.char_limit,
    ensures
        ({
            let e = params_error(body, args, required);
            let f = params_error(other, other_args, required);
            e is Some && f is Some && (e->0).1 == (f->0).1 ==> (e->0).0 == (f->0).0
        }),
{
}

/// Every refused request is refused with 400 or, for its key alone, with 403.
pub proof fn law_refusals(
    body: TranslateRequest,
    args: Args,
    required: Seq<(Seq<char>, Option<Seq<char>>)>,
)
    ensures
        params_error(body, args, required) matches Some(e) ==> e.1 == 400 || (e.1 == 403 && e.0
            == "Invalid API key"@),
{
}

} // verus!
