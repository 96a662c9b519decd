//! HTTP Basic authentication: credentials carried in an `Authorization` header.
use base64::Engine;
use vstd::prelude::*;
use vstd::utf8::{decode_utf8, encode_utf8, valid_utf8};
use crate::text::{chars_equal, chars_of, find_char, find_in, string_from_chars};

verus! {

broadcast use vstd::string::group_string_axioms;

/// Credentials extracted from HTTP Basic Auth.
#[derive(Clone, Debug)]
pub struct BasicAuthCredentials {
    pub username: String,
    pub password: String,
}

/// Username and password of optional credentials.
pub open spec fn creds_view(c: Option<BasicAuthCredentials>) -> Option<(Seq<char>, Seq<char>)> {
    match c {
        Some(c) => Some((c.username@, c.password@)),
        None => None,
    }
}

/// What base64's standard engine (alphabet `A-Z a-z 0-9 + /`, `=` padding
/// required, canonical trailing bits) decodes `input` to, or `None` when it
/// rejects the input.
pub uninterp spec fn base64_standard_decode(input: Seq<u8>) -> Option<Seq<u8>>;

/// Calls `base64::engine::general_purpose::STANDARD.decode`. Claims only that
/// its result is a function of the input bytes, named `base64_standard_decode`.
#[verifier::external_body]
fn base64_decode(input: &[u8]) -> (r: Option<Vec<u8>>)
    ensures
        match r {
            Some(v) => base64_standard_decode(input@) == Some(v@),
            None => base64_standard_decode(input@) is None,
        },
{
    base64::engine::general_purpose::STANDARD.decode(input).ok()
}

/// Calls `String::from_utf8`, which accepts exactly the well-formed UTF-8
/// byte sequences and decodes them.
#[verifier::external_body]
fn utf8_to_string(bytes: Vec<u8>) -> (r: Option<String>)
    ensures
        r is Some == valid_utf8(bytes@),
        r matches Some(s) ==> s@ == decode_utf8(bytes@),
{
    String::from_utf8(bytes).ok()
}

/// Username and password in decoded credential bytes `user:password`: the
/// bytes must be UTF-8 and hold a colon, and the username (before the first
/// colon) must not be empty.
pub open spec fn credentials_of(decoded: Seq<u8>) -> Option<(Seq<char>, Seq<char>)> {
    if !valid_utf8(decoded) {
        None
    } else {
        let text = decode_utf8(decoded);
        let colon = find_char(text, ':');
        if colon >= text.len() || colon == 0 {
            None
        } else {
            Some((text.take(colon), text.skip(colon + 1)))
        }
    }
}

/// Credentials in an `Authorization` header value: `Basic ` followed by the
/// base64 encoding of `user:password`.
pub open spec fn basic_auth_of(header: Seq<char>) -> Option<(Seq<char>, Seq<char>)> {
    if header.len() >= 6 && header.take(6) == "Basic "@ {
        match base64_standard_decode(encode_utf8(header.skip(6))) {
            Some(decoded) => credentials_of(decoded),
            None => None,
        }
    } else {
        None
    }
}

/// Credentials held in base64-decoded `user:password` bytes.
pub fn credentials_from_decoded(decoded: Vec<u8>) -> (r: Option<BasicAuthCredentials>)
    ensures
        match r {
            Some(c) => credentials_of(decoded@) == Some((c.username@, c.password@)),
            None => credentials_of(decoded@) is None,
        },
{
    let ghost bytes = decoded@;
    let text = match utf8_to_string(decoded) {
        Some(t) => t,
        None => return None,
    };
    let v = chars_of(text.as_str());
    assert(v@.skip(0) =~= v@);
    let colon = find_in(&v, ':');
    if colon >= v.len() || colon == 0 {
        return None;
    }
    let username = string_from_chars(&v, 0, colon);
    let password = string_from_chars(&v, colon + 1, v.len());
    assert(v@.subrange(0, colon as int) =~= v@.take(colon as int));
    assert(v@.subrange(colon + 1, v@.len() as int) =~= v@.skip(colon + 1));
    Some(BasicAuthCredentials { username, password })
}

/// Extracts HTTP Basic Auth credentials from an `Authorization` header value.
pub fn parse_basic_auth(header_value: &str) -> (r: Option<BasicAuthCredentials>)
    ensures
        match r {
            Some(c) => basic_auth_of(header_value@) == Some((c.username@, c.password@)),
            None => basic_auth_of(header_value@) is None,
        },
{
    proof {
        reveal_strlit("Basic ");
    }
    let v = chars_of(header_value);
    let prefix = chars_of("Basic ");
    if v.len() < 6 || !chars_equal(&v, 0, 6, &prefix) {
        assert(v.len() >= 6 ==> v@.subrange(0, 6) =~= v@.take(6));
        return None;
    }
    assert(v@.subrange(0, 6) =~= v@.take(6));
    let encoded = header_value.substring_char(6, v.len());
    assert(encoded@ =~= header_value@.skip(6));
    let decoded = match base64_decode(encoded.as_bytes()) {
        Some(d) => d,
        None => return None,
    };
    credentials_from_decoded(decoded)
}

} // verus!
