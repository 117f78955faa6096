//! Header maps of the `http` crate, as the handlers use them.
//!
//! A header map is a multimap from lower-case field names to field values. Its
//! contents are modelled as a `Map` from the name's text to the sequence of the
//! values stored under that name, each value as its bytes, in the order in
//! which `get_all` would yield them. The functions of this module are the only
//! ones in the crate whose contracts are taken on trust: each makes one call
//! into `http` and states what that call does.

use axum::http::header::{HeaderMap, HeaderName, HeaderValue};
use vstd::prelude::*;

verus! {

/// The model of a header map's contents.
pub type Fields = Map<Seq<char>, Seq<Seq<u8>>>;

/// `http::HeaderMap`, opaque to the verifier.
#[verifier::external_type_specification]
#[verifier::external_body]
#[verifier::reject_recursive_types(T)]
pub struct ExHeaderMap<T>(HeaderMap<T>);

/// `http::HeaderValue`, opaque to the verifier.
#[verifier::external_type_specification]
#[verifier::external_body]
pub struct ExHeaderValue(HeaderValue);

/// `http::HeaderName`, opaque to the verifier.
#[verifier::external_type_specification]
#[verifier::external_body]
pub struct ExHeaderName(HeaderName);

/// What a header map holds: for each field name that occurs in it, the values
/// stored under that name, first to last.
pub uninterp spec fn header_fields(map: HeaderMap<HeaderValue>) -> Fields;

/// The bytes of a header value, as `HeaderValue::as_bytes` gives them.
pub uninterp spec fn value_bytes(value: HeaderValue) -> Seq<u8>;

/// The text of a header name, as `HeaderName::as_str` gives it (always lower case).
pub uninterp spec fn name_text(name: HeaderName) -> Seq<char>;

/// The text of the `content-type` field name.
pub open spec fn content_type_text() -> Seq<char> {
    "content-type"@
}

/// Whether each character is a tab or lies in the printable ASCII range, space included.
pub open spec fn is_visible_ascii(text: Seq<char>) -> bool {
    forall|i: int| 0 <= i < text.len() ==> {
        let c = #[trigger] text[i];
        (' ' <= c && c <= '~') || c == '\t'
    }
}

/// The bytes of a text of ASCII characters: each character as one byte.
pub open spec fn ascii_bytes(text: Seq<char>) -> Seq<u8> {
    Seq::new(text.len(), |i: int| text[i] as u8)
}

/// Trusted: `HeaderMap::new` returns a map without fields.
#[verifier::external_body]
pub(crate) fn empty_headers() -> (map: HeaderMap)
    ensures
        header_fields(map) == Fields::empty(),
{
    HeaderMap::new()
}

/// Trusted: `HeaderMap::get` with a `&HeaderName` key returns the first value
/// stored under that name, and `None` exactly when the map has no such field.
#[verifier::external_body]
pub(crate) fn first_value<'a>(map: &'a HeaderMap, name: &HeaderName) -> (found: Option<&'a HeaderValue>)
    ensures
        match found {
            Some(value) => {
                &&& header_fields(*map).contains_key(name_text(*name))
                &&& header_fields(*map)[name_text(*name)].len() > 0
                &&& value_bytes(*value) == header_fields(*map)[name_text(*name)][0]
            },
            None => !header_fields(*map).contains_key(name_text(*name)),
        },
{
    map.get(name)
}

/// Trusted: `HeaderMap::insert` leaves the given value as the only one under
/// the given name and touches no other field. The call panics when the map
/// would outgrow its size limit; a map without fields is far from it, and the
/// contract is stated for such maps only.
#[verifier::external_body]
pub(crate) fn set_field(map: &mut HeaderMap, name: HeaderName, value: HeaderValue)
    requires
        header_fields(*old(map)) == Fields::empty(),
    ensures
        header_fields(*final(map)) == header_fields(*old(map)).insert(
            name_text(name),
            seq![value_bytes(value)],
        ),
{
    map.insert(name, value);
}

/// Trusted: `HeaderValue::clone` returns a value with the same bytes.
#[verifier::external_body]
pub(crate) fn copy_value(value: &HeaderValue) -> (copy: HeaderValue)
    ensures
        value_bytes(copy) == value_bytes(*value),
{
    value.clone()
}

/// Trusted: `HeaderValue::from_static` returns a value whose bytes are those of
/// the text. It panics on a character that is neither a tab nor printable
/// ASCII, so such texts are left out.
#[verifier::external_body]
pub(crate) fn static_value(text: &'static str) -> (value: HeaderValue)
    requires
        is_visible_ascii(text@),
    ensures
        value_bytes(value) == ascii_bytes(text@),
{
    HeaderValue::from_static(text)
}

/// Trusted: the constant `http::header::CONTENT_TYPE` is the name `content-type`.
#[verifier::external_body]
pub(crate) fn content_type_name() -> (name: HeaderName)
    ensures
        name_text(name) == content_type_text(),
{
    axum::http::header::CONTENT_TYPE
}

} // verus!
