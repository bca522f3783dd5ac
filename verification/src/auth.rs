//! Checking the access token of a WebSocket upgrade request.
use vstd::prelude::*;

use axum::http::{HeaderMap, HeaderValue};

use crate::text::{same_text, starts_with, strip_prefix};

verus! {

#[verifier::external_type_specification]
#[verifier::external_body]
#[verifier::reject_recursive_types(T)]
pub struct ExHeaderMap<T>(HeaderMap<T>);

#[verifier::external_type_specification]
#[verifier::external_body]
pub struct ExHeaderValue(HeaderValue);

/// What a header map holds, as far as `HeaderMap::get` reads it: for each
/// header name (in lower case) the bytes of its first value.
pub uninterp spec fn first_header_values(headers: HeaderMap) -> Map<Seq<char>, Seq<u8>>;

/// The bytes that a header value holds.
pub uninterp spec fn header_value_bytes(value: HeaderValue) -> Seq<u8>;

/// Whether a byte is visible ASCII (or a tab), as `HeaderValue::to_str` demands.
pub open spec fn visible_ascii(b: u8) -> bool {
    (32 <= b && b < 127) || b == 9
}

/// A header name in the lower-case form under which a header map stores it.
pub open spec fn lower_header_name(name: Seq<char>) -> bool {
    name.len() > 0 && forall|i: int|
        0 <= i < name.len() ==> (('a' <= #[trigger] name[i] && name[i] <= 'z') || ('0' <= name[i]
            && name[i] <= '9') || name[i] == '-')
}

/// The text of a header value, when every byte is visible ASCII.
pub open spec fn header_text(bytes: Seq<u8>) -> Option<Seq<char>> {
    if forall|i: int| 0 <= i < bytes.len() ==> visible_ascii(#[trigger] bytes[i]) {
        Some(bytes.map_values(|b: u8| b as char))
    } else {
        None
    }
}

/// The text of the first value of header `name`, when there is one and it
/// is visible ASCII.
pub open spec fn header_lookup(headers: Map<Seq<char>, Seq<u8>>, name: Seq<char>) -> Option<Seq<char>> {
    if headers.contains_key(name) {
        header_text(headers[name])
    } else {
        None
    }
}

/// Whether the headers carry the expected token: as `Authorization: Bearer
/// <token>`, which decides alone when it is present; otherwise as
/// `X-Asr-Token: <token>`.
pub open spec fn token_accepted(headers: Map<Seq<char>, Seq<u8>>, expected: Seq<char>) -> bool {
    match header_lookup(headers, "authorization"@) {
        Some(value) if starts_with(value, "Bearer "@) => value.subrange(7, value.len() as int)
            == expected,
        _ => match header_lookup(headers, "x-asr-token"@) {
            Some(value) => value == expected,
            None => false,
        },
    }
}

/// Calls `HeaderMap::get`: the first value of the header, if any.
#[verifier::external_body]
fn header_get<'a>(headers: &'a HeaderMap, name: &str) -> (r: Option<&'a HeaderValue>)
    requires
        lower_header_name(name@),
    ensures
        r is Some == first_header_values(*headers).contains_key(name@),
        r matches Some(v) ==> header_value_bytes(*v) == first_header_values(*headers)[name@],
{
    headers.get(name)
}

/// Calls `HeaderValue::to_str`: the value as text when every byte is visible
/// ASCII (or a tab), else `None`.
#[verifier::external_body]
fn header_to_str(value: &HeaderValue) -> (r: Option<&str>)
    ensures
        r is Some == (forall|i: int|
            0 <= i < header_value_bytes(*value).len() ==> visible_ascii(
                #[trigger] header_value_bytes(*value)[i],
            )),
        r matches Some(t) ==> t@ == header_value_bytes(*value).map_values(|b: u8| b as char),
{
    value.to_str().ok()
}

/// Reads the text of the first value of header `name`.
fn lookup<'a>(headers: &'a HeaderMap, name: &str) -> (r: Option<&'a str>)
    requires
        lower_header_name(name@),
    ensures
        match r {
            Some(t) => header_lookup(first_header_values(*headers), name@) == Some(t@),
            None => header_lookup(first_header_values(*headers), name@) is None,
        },
{
    match header_get(headers, name) {
        Some(value) => header_to_str(value),
        None => None,
    }
}

/// Whether the request headers carry the expected access token.
pub fn verify_token(headers: &HeaderMap, expected: &str) -> (r: bool)
    ensures
        r == token_accepted(first_header_values(*headers), expected@),
{
    proof {
        reveal_strlit("authorization");
        reveal_strlit("x-asr-token");
        reveal_strlit("Bearer ");
    }
    if let Some(value) = lookup(headers, "authorization") {
        if let Some(token) = strip_prefix(value, "Bearer ") {
            return same_text(token, expected);
        }
    }
    if let Some(value) = lookup(headers, "x-asr-token") {
        return same_text(value, expected);
    }
    false
}

/// When the `Authorization` header carries a `Bearer` token, that token alone
/// decides: `X-Asr-Token` is not consulted.
pub proof fn lemma_bearer_decides(headers: Map<Seq<char>, Seq<u8>>, expected: Seq<char>)
    requires
        header_lookup(headers, "authorization"@) matches Some(v) && starts_with(v, "Bearer "@),
    ensures
        token_accepted(headers, expected) == (header_lookup(headers, "authorization"@)->0.subrange(
            7,
            header_lookup(headers, "authorization"@)->0.len() as int,
        ) == expected),
{
}

/// A request with neither header is refused.
pub proof fn lemma_no_token_refused(headers: Map<Seq<char>, Seq<u8>>, expected: Seq<char>)
    requires
        !headers.contains_key("authorization"@),
        !headers.contains_key("x-asr-token"@),
    ensures
        !token_accepted(headers, expected),
{
}

/// The token is found where a client puts it: `Authorization: Bearer <token>`
/// is accepted exactly when the token matches; without an `Authorization`
/// header, `X-Asr-Token: <token>` is accepted exactly when it matches; with
/// neither header nothing is accepted.
pub proof fn lemma_token_sources(headers: Map<Seq<char>, Seq<u8>>, expected: Seq<char>, given: Seq<char>)
    ensures
        header_lookup(headers, "authorization"@) == Some("Bearer "@ + given) ==> (token_accepted(
            headers,
            expected,
        ) <==> given == expected),
        (!headers.contains_key("authorization"@) && header_lookup(headers, "x-asr-token"@) == Some(given))
            ==> (token_accepted(headers, expected) <==> given == expected),
        (!headers.contains_key("authorization"@) && !headers.contains_key("x-asr-token"@)) ==> !token_accepted(
            headers,
            expected,
        ),
{
    reveal_strlit("Bearer ");
    let v = "Bearer "@ + given;
    if header_lookup(headers, "authorization"@) == Some(v) {
        assert(v.subrange(0, 7) =~= "Bearer "@);
        assert(v.subrange(7, v.len() as int) =~= given);
    }
}

} // verus!
