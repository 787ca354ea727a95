//! The session cookie.
//!
//! A browser session is nothing but a cookie named `tbl_token` that carries
//! the session secret. The server keeps no table of sessions: it reads the
//! cookie out of the `Cookie` header of each request and compares.

use vstd::prelude::*;
use crate::text::{
    find_char_from, find_from, from_chars, has_prefix, is_space, lemma_find_from,
    lemma_trim_bounds, lemma_trim_identity, slice, starts_with, str_of, text_of, to_chars, trim,
    trim_chars,
};
use crate::token::{is_hex_digit, is_token};

verus! {

/// The name of the session cookie, with the `=` that follows it in a pair.
pub open spec fn cookie_prefix() -> Seq<char> {
    "tbl_token="@
}

/// The value that one `;`-separated part of a `Cookie` header gives the
/// session cookie: the part is trimmed, and where it then begins with
/// `tbl_token=`, all that follows is the value.
pub open spec fn pair_token(part: Seq<char>) -> Option<Seq<char>> {
    let pair = trim(part);
    if has_prefix(pair, cookie_prefix()) {
        Some(pair.subrange(cookie_prefix().len() as int, pair.len() as int))
    } else {
        None
    }
}

/// The session cookie's value in the parts of `header` that begin at or
/// after index `from`: that of the first part which names the cookie.
pub open spec fn cookie_token_from(header: Seq<char>, from: int) -> Option<Seq<char>>
    decreases header.len() - from,
{
    if from < 0 || from > header.len() {
        None
    } else {
        let end = find_from(header, ';', from);
        match pair_token(header.subrange(from, end)) {
            Some(value) => Some(value),
            None => if from <= end < header.len() {
                cookie_token_from(header, end + 1)
            } else {
                None
            },
        }
    }
}

/// The session cookie's value in a `Cookie` header.
pub open spec fn cookie_token(header: Seq<char>) -> Option<Seq<char>> {
    cookie_token_from(header, 0)
}

/// What a request presents as its session cookie, given its `Cookie` header
/// if it has one.
pub open spec fn presented_token(header: Option<Seq<char>>) -> Option<Seq<char>> {
    match header {
        Some(h) => cookie_token(h),
        None => None,
    }
}

/// The header that a browser sends back once the cookie is set to `secret`.
pub open spec fn cookie_header_for(secret: Seq<char>) -> Seq<char> {
    cookie_prefix() + secret
}

/// Whether `secret` comes back unchanged from a `Cookie` header: it holds no
/// `;` and does not end with white space.
pub open spec fn cookie_safe(secret: Seq<char>) -> bool {
    &&& forall|i: int| 0 <= i < secret.len() ==> secret[i] != ';'
    &&& secret.len() > 0 ==> !is_space(secret.last())
}

/// Reads the session cookie out of the `Cookie` header of a request. `None`
/// where the request has no such header or the header names no `tbl_token`.
pub fn extract_token_from_cookie(cookie_header: Option<&str>) -> (token: Option<String>)
    ensures
        text_of(token) == presented_token(str_of(cookie_header)),
{
    let header = match cookie_header {
        Some(h) => to_chars(h),
        None => {
            return None;
        },
    };
    let prefix = to_chars("tbl_token=");
    let mut from: usize = 0;
    loop
        invariant
            from <= header.len(),
            str_of(cookie_header) == Some(header@),
            prefix@ == cookie_prefix(),
            cookie_token(header@) == cookie_token_from(header@, from as int),
        decreases header.len() - from,
    {
        let end = find_char_from(&header, ';', from);
        let part = slice(&header, from, end);
        let pair = trim_chars(&part);
        if starts_with(&pair, &prefix) {
            let value = slice(&pair, prefix.len(), pair.len());
            return Some(from_chars(&value));
        }
        if end >= header.len() {
            return None;
        }
        from = end + 1;
    }
}

/// A secret made of hexadecimal digits is safe in a cookie.
pub proof fn lemma_token_is_cookie_safe(secret: Seq<char>)
    requires
        is_token(secret),
    ensures
        cookie_safe(secret),
{
    assert forall|i: int| 0 <= i < secret.len() implies secret[i] != ';' by {
        assert(is_hex_digit(secret[i]));
    }
    assert(is_hex_digit(secret.last()));
}

/// A request that carries nothing but the cookie set to a safe secret
/// presents exactly that secret.
pub proof fn lemma_cookie_round_trip(secret: Seq<char>)
    requires
        cookie_safe(secret),
    ensures
        cookie_token(cookie_header_for(secret)) == Some(secret),
{
    reveal_strlit("tbl_token=");
    let prefix = cookie_prefix();
    let header = cookie_header_for(secret);
    assert(prefix.len() == 10);
    assert(prefix[0] == 't' && prefix[9] == '=');
    assert forall|j: int| 0 <= j < header.len() implies header[j] != ';' by {
        if j >= 10 {
            assert(header[j] == secret[j - 10]);
        }
    }
    lemma_find_from(header, ';', 0);
    assert(find_from(header, ';', 0) == header.len());
    assert(header.subrange(0, header.len() as int) == header);
    assert(header.first() == 't');
    assert(!is_space(header.last())) by {
        if secret.len() > 0 {
            assert(header.last() == secret.last());
        } else {
            assert(header.last() == '=');
        }
    }
    lemma_trim_identity(header);
    assert(header.subrange(0, 10) == prefix);
    assert(header.subrange(10, header.len() as int) == secret);
}

/// An empty `Cookie` header presents nothing.
pub proof fn lemma_empty_header_presents_nothing()
    ensures
        cookie_token(Seq::<char>::empty()) is None,
{
    reveal_strlit("tbl_token=");
    let header = Seq::<char>::empty();
    assert(header.subrange(0, 0) == header);
    assert(trim(header).len() == 0) by {
        lemma_trim_bounds(header);
    }
}

} // verus!
