//! HTTP basic authentication, the optional second gate.
//!
//! Where a user name and a password are configured, a request must carry
//! them in its `Authorization` header, as `Basic ` followed by the base64
//! form of `user:password`.

use base64::engine::general_purpose::STANDARD;
use base64::Engine;
use vstd::prelude::*;
use vstd::utf8::{decode_utf8, valid_utf8};
use crate::text::{
    find_char_from, find_from, from_chars, has_prefix, same_text, slice, starts_with, str_of,
    to_chars,
};

verus! {

/// What base64 text decodes to under the standard alphabet with canonical
/// padding; `None` for text that is not such base64.
pub uninterp spec fn base64_decoded(text: Seq<char>) -> Option<Seq<u8>>;

/// The scheme that an `Authorization` header must begin with.
pub open spec fn basic_scheme() -> Seq<char> {
    "Basic "@
}

/// The base64 text of an `Authorization` header: what follows `Basic `.
pub open spec fn basic_payload(header: Seq<char>) -> Option<Seq<char>> {
    if has_prefix(header, basic_scheme()) {
        Some(header.subrange(basic_scheme().len() as int, header.len() as int))
    } else {
        None
    }
}

/// The user name and password in decoded credentials: the text before the
/// first `:` and the text after it. Without a `:` all of it is the user name
/// and the password is empty. Bytes that are not UTF-8 hold no credentials.
pub open spec fn credentials_in(decoded: Seq<u8>) -> Option<(Seq<char>, Seq<char>)> {
    if valid_utf8(decoded) {
        let text = decode_utf8(decoded);
        let colon = find_from(text, ':', 0);
        if colon < text.len() {
            Some((text.subrange(0, colon), text.subrange(colon + 1, text.len() as int)))
        } else {
            Some((text, Seq::<char>::empty()))
        }
    } else {
        None
    }
}

/// Whether decoded credentials are the given user name and password.
pub open spec fn credentials_accepted(decoded: Seq<u8>, user: Seq<char>, pass: Seq<char>) -> bool {
    credentials_in(decoded) == Some((user, pass))
}

/// Whether a request with the given `Authorization` header, if any, passes
/// basic authentication for `user` and `pass`.
pub open spec fn basic_auth_accepted(
    header: Option<Seq<char>>,
    user: Seq<char>,
    pass: Seq<char>,
) -> bool {
    match header {
        None => false,
        Some(h) => match basic_payload(h) {
            None => false,
            Some(payload) => match base64_decoded(payload) {
                None => false,
                Some(decoded) => credentials_accepted(decoded, user, pass),
            },
        },
    }
}

/// The view of optional bytes.
pub open spec fn bytes_of(b: Option<Vec<u8>>) -> Option<Seq<u8>> {
    match b {
        Some(v) => Some(v@),
        None => None,
    }
}

/// `Engine::decode` of base64's `STANDARD` engine. What it returns depends
/// on the text alone; an error of the decoder becomes `None`.
#[verifier::external_body]
fn base64_decode(text: &str) -> (decoded: Option<Vec<u8>>)
    ensures
        bytes_of(decoded) == base64_decoded(text@),
{
    match STANDARD.decode(text) {
        Ok(bytes) => Some(bytes),
        Err(_) => None,
    }
}

/// `String::from_utf8`: the text that the bytes encode, exactly when they
/// are valid UTF-8.
#[verifier::external_body]
fn utf8_text(bytes: Vec<u8>) -> (text: Option<String>)
    ensures
        text is Some <==> valid_utf8(bytes@),
        text matches Some(t) ==> t@ == decode_utf8(bytes@),
{
    match String::from_utf8(bytes) {
        Ok(text) => Some(text),
        Err(_) => None,
    }
}

/// Compares decoded credentials with the configured user name and password.
pub fn credentials_match(decoded: Vec<u8>, user: &str, pass: &str) -> (ok: bool)
    ensures
        ok == credentials_accepted(decoded@, user@, pass@),
{
    let text = match utf8_text(decoded) {
        Some(t) => to_chars(t.as_str()),
        None => {
            return false;
        },
    };
    let colon = find_char_from(&text, ':', 0);
    let given_user = slice(&text, 0, colon);
    let given_pass = if colon < text.len() {
        slice(&text, colon + 1, text.len())
    } else {
        Vec::new()
    };
    assert(colon == text.len() ==> given_user@ == text@);
    let want_user = to_chars(user);
    let want_pass = to_chars(pass);
    same_text(&given_user, &want_user) && same_text(&given_pass, &want_pass)
}

/// Checks the `Authorization` header of a request against the configured
/// user name and password. A request without the header, with another
/// scheme, or with a payload that is not base64 is refused.
pub fn check_basic_auth(authorization: Option<&str>, user: &str, pass: &str) -> (ok: bool)
    ensures
        ok == basic_auth_accepted(str_of(authorization), user@, pass@),
{
    let header = match authorization {
        Some(h) => to_chars(h),
        None => {
            return false;
        },
    };
    let scheme = to_chars("Basic ");
    if !starts_with(&header, &scheme) {
        return false;
    }
    let payload = from_chars(&slice(&header, scheme.len(), header.len()));
    match base64_decode(payload.as_str()) {
        Some(decoded) => credentials_match(decoded, user, pass),
        None => false,
    }
}

} // verus!
