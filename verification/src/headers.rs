//! The header map of a request. The map is the `http` crate's own, which
//! `reqwest` hands on as `reqwest::header::HeaderMap`; contracts speak of its
//! fields as a map from header name, in lower case, to value.

use vstd::prelude::*;

verus! {

/// Trusted: the type `reqwest::header::HeaderMap`. What it holds is read
/// through `header_fields` only.
#[verifier::external_type_specification]
#[verifier::external_body]
#[verifier::reject_recursive_types(T)]
pub struct ExHeaderMap<T>(reqwest::header::HeaderMap<T>);

/// Trusted: the type `reqwest::header::HeaderValue`, of which nothing is
/// read.
#[verifier::external_type_specification]
#[verifier::external_body]
pub struct ExHeaderValue(reqwest::header::HeaderValue);

/// Header names, in lower case, with their values.
pub type HeaderFields = Map<Seq<char>, Seq<char>>;

/// The fields of a header map.
pub uninterp spec fn header_fields(
    headers: reqwest::header::HeaderMap<reqwest::header::HeaderValue>,
) -> HeaderFields;

/// The most fields a map may hold for another one to be inserted through
/// this module. The `http` crate's own limit is 32,768.
pub const MAX_FIELDS: usize = 1024;

/// A character that a header value made from text may hold: any but the
/// control characters, and the tab.
pub open spec fn is_header_value_char(c: char) -> bool {
    (c as u32 >= 32 && c as u32 != 127) || c == '\t'
}

/// A text that is accepted as a header value.
pub open spec fn is_header_value(text: Seq<char>) -> bool {
    forall|i: int| 0 <= i < text.len() ==> is_header_value_char(#[trigger] text[i])
}

/// A letter, a digit or a hyphen.
pub open spec fn is_header_name_char(c: char) -> bool {
    ||| 'A' <= c <= 'Z'
    ||| 'a' <= c <= 'z'
    ||| '0' <= c <= '9'
    ||| c == '-'
}

/// A header name of one to 64 letters, digits and hyphens.
pub open spec fn is_header_name(name: Seq<char>) -> bool {
    &&& 1 <= name.len() <= 64
    &&& forall|i: int| 0 <= i < name.len() ==> is_header_name_char(#[trigger] name[i])
}

/// `c` in lower case, where it is an ASCII capital letter.
pub open spec fn lower_case_char(c: char) -> char {
    if 'A' <= c <= 'Z' {
        ((c as u8) + 32) as char
    } else {
        c
    }
}

/// `name` with its ASCII capital letters in lower case.
pub open spec fn lower_case(name: Seq<char>) -> Seq<char> {
    name.map_values(|c: char| lower_case_char(c))
}

/// Trusted: `reqwest::header::HeaderMap::with_capacity`.
///
/// The new map has no fields. The outside function panics where the capacity
/// is over its limit; a capacity above `MAX_FIELDS` is left out.
#[verifier::external_body]
pub(crate) fn header_map_with_capacity(capacity: usize) -> (headers: reqwest::header::HeaderMap<
    reqwest::header::HeaderValue,
>)
    requires
        capacity <= MAX_FIELDS,
    ensures
        header_fields(headers) == HeaderFields::empty(),
{
    reqwest::header::HeaderMap::with_capacity(capacity)
}

/// Trusted: `reqwest::header::HeaderValue::from_str` on `value`, and, where
/// it accepts the text, `reqwest::header::HeaderMap::insert` under `name`.
///
/// `from_str` accepts a text exactly when none of its bytes is a control
/// character other than the tab. `insert` turns the name into lower case and
/// replaces what the map held under it. It panics on a name that is not a
/// header name, and where the map has reached its limit; names other than
/// short ones of letters, digits and hyphens, and maps of `MAX_FIELDS`
/// fields or more, are left out.
#[verifier::external_body]
pub(crate) fn header_map_insert(
    headers: &mut reqwest::header::HeaderMap<reqwest::header::HeaderValue>,
    name: &'static str,
    value: &str,
) -> (accepted: bool)
    requires
        is_header_name(name@),
        header_fields(*old(headers)).dom().finite(),
        header_fields(*old(headers)).dom().len() < MAX_FIELDS,
    ensures
        accepted == is_header_value(value@),
        accepted ==> header_fields(*final(headers)) == header_fields(*old(headers)).insert(
            lower_case(name@),
            value@,
        ),
        !accepted ==> header_fields(*final(headers)) == header_fields(*old(headers)),
{
    match reqwest::header::HeaderValue::from_str(value) {
        Ok(header_value) => {
            headers.insert(name, header_value);
            true
        },
        Err(_) => false,
    }
}

} // verus!
