//! What this library takes from `url` and `hyper`, and the contracts it
//! relies on for each call.
use vstd::prelude::*;

use crate::form::{form_escape, form_field};

verus! {

#[verifier::external_type_specification]
#[verifier::external_body]
pub struct ExUrl(url::Url);

#[verifier::external_type_specification]
#[verifier::external_body]
pub struct ExParseError(url::ParseError);

#[verifier::external_type_specification]
#[verifier::external_body]
pub struct ExHeaders(hyper::header::Headers);

/// What `url::Url::parse` returns for the text: the URL, or why it is not one.
pub uninterp spec fn parse_result_of(s: Seq<char>) -> Result<url::Url, url::ParseError>;

/// The name/value pairs that `url::Url::query_pairs` yields, in order.
pub uninterp spec fn query_pairs_of(u: url::Url) -> Seq<(Seq<char>, Seq<char>)>;

/// The query text of a URL, what `url::Url::query` returns: the text after
/// `?` and before any `#`, if there is a `?`.
pub uninterp spec fn query_text_of(u: url::Url) -> Option<Seq<char>>;

/// Bytes read as the ASCII characters they are.
pub open spec fn ascii_chars(bs: Seq<u8>) -> Seq<char> {
    bs.map_values(|b: u8| b as char)
}

/// The query text after one more pair is appended: a `&` after a non-empty
/// query, then the escaped `name=value` field.
pub open spec fn query_text_after(
    before: Option<Seq<char>>,
    name: Seq<char>,
    value: Seq<char>,
) -> Seq<char> {
    let field = ascii_chars(form_field(name, value));
    match before {
        Some(t) => if t.len() > 0 {
            t + seq!['&'] + field
        } else {
            field
        },
        None => field,
    }
}

/// The fields of a header map: each name in lower case (hyper compares
/// names without regard to case) to the value as hyper writes it.
pub uninterp spec fn header_fields_of(h: hyper::header::Headers) -> Map<Seq<char>, Seq<char>>;

/// Relies on `url::form_urlencoded::byte_serialize`: letters, digits and
/// `*-._` are kept, a space becomes `+`, every other byte `%XX` in upper-case
/// hexadecimal.
#[verifier::external_body]
pub(crate) fn form_serialize(input: &[u8]) -> (r: Vec<u8>)
    ensures
        r@ == form_escape(input@),
{
    url::form_urlencoded::byte_serialize(input).collect::<String>().into_bytes()
}

/// Relies on `url::Url::parse`: the text is parsed as an absolute URL. A
/// query begins only at a `?`, so text without one gives a URL without a
/// query.
#[verifier::external_body]
pub(crate) fn parse_url(s: &str) -> (r: Result<url::Url, url::ParseError>)
    ensures
        r == parse_result_of(s@),
        !s@.contains('?') && r is Ok ==> query_text_of(r->Ok_0) is None,
        !s@.contains('?') && r is Ok ==> query_pairs_of(r->Ok_0).len() == 0,
{
    url::Url::parse(s)
}

/// Relies on `url::Url::query_pairs_mut` and `Serializer::append_pair`: the
/// pair is escaped by `byte_serialize` and written after the existing query,
/// behind a `&` if that query is not empty, so that `query_pairs` then
/// yields the old pairs followed by this one.
#[verifier::external_body]
pub(crate) fn append_query_pair(u: &mut url::Url, name: &str, value: &str)
    ensures
        query_pairs_of(*final(u)) == query_pairs_of(*old(u)).push((name@, value@)),
        query_text_of(*final(u)) == Some(query_text_after(query_text_of(*old(u)), name@, value@)),
{
    u.query_pairs_mut().append_pair(name, value);
}

/// A header map with no fields.
pub open spec fn no_header_fields() -> Map<Seq<char>, Seq<char>> {
    Map::empty()
}

/// Relies on `hyper::header::Headers::new`: a map with no fields.
#[verifier::external_body]
pub(crate) fn empty_headers() -> (r: hyper::header::Headers)
    ensures
        header_fields_of(r) == no_header_fields(),
{
    hyper::header::Headers::new()
}

/// Relies on `hyper::header::Headers::set` with `ContentType::json`: the
/// `Content-Type` field is replaced by `application/json`.
#[verifier::external_body]
pub(crate) fn set_json_content_type(h: &mut hyper::header::Headers)
    ensures
        header_fields_of(*final(h)) == header_fields_of(*old(h)).insert(
            "content-type"@,
            "application/json"@,
        ),
{
    h.set(hyper::header::ContentType::json());
}

/// Relies on `hyper::header::Headers::set` with
/// `ContentType::form_url_encoded`: the `Content-Type` field is replaced by
/// `application/x-www-form-urlencoded`.
#[verifier::external_body]
pub(crate) fn set_form_content_type(h: &mut hyper::header::Headers)
    ensures
        header_fields_of(*final(h)) == header_fields_of(*old(h)).insert(
            "content-type"@,
            "application/x-www-form-urlencoded"@,
        ),
{
    h.set(hyper::header::ContentType::form_url_encoded());
}

/// Relies on the derived `Clone` of `url::Url`: the copy has the same query.
pub assume_specification[ <url::Url as Clone>::clone ](u: &url::Url) -> (r: url::Url)
    ensures
        query_pairs_of(r) == query_pairs_of(*u),
        query_text_of(r) == query_text_of(*u),
;

/// Relies on `Clone` of `hyper::header::Headers`: the copy has the same
/// fields.
pub assume_specification[ <hyper::header::Headers as Clone>::clone ](h: &hyper::header::Headers) -> (r: hyper::header::Headers)
    ensures
        header_fields_of(r) == header_fields_of(*h),
;

} // verus!
