//! Connection pool keys and connection settings: one Fluss connection per
//! credential pair, keyed by the username and a SHA-256 digest.
use sha2::Digest;
use vstd::prelude::*;
use vstd::utf8::encode_utf8;
use crate::config::AuthConfig;

verus! {

broadcast use vstd::string::group_string_axioms;

/// Key used to identify a unique Fluss connection per credential pair:
/// (username, SHA-256 of `username:password`).
pub type CredentialKey = (String, [u8; 32]);

/// The SHA-256 digest of `data`.
pub uninterp spec fn sha256(data: Seq<u8>) -> Seq<u8>;

/// Calls `sha2::Sha256::digest`. Claims only that the 32-byte digest is a
/// function of the input bytes, named `sha256`.
#[verifier::external_body]
fn sha256_digest(data: &[u8]) -> (d: [u8; 32])
    ensures
        d@ == sha256(data@),
{
    sha2::Sha256::digest(data).into()
}

/// The bytes hashed for a credential pair: `username:password` in UTF-8.
pub open spec fn credential_bytes(username: Seq<char>, password: Seq<char>) -> Seq<u8> {
    encode_utf8(username) + seq![58u8] + encode_utf8(password)
}

/// Pool keys tell credential pairs apart: a key holds the username, and for
/// one username different passwords give different hashed bytes, so two
/// distinct pairs can share a key only through a SHA-256 collision.
pub proof fn lemma_credential_bytes_tell_passwords_apart(
    username: Seq<char>,
    p1: Seq<char>,
    p2: Seq<char>,
)
    ensures
        p1 != p2 ==> credential_bytes(username, p1) != credential_bytes(username, p2),
{
    if credential_bytes(username, p1) == credential_bytes(username, p2) {
        let k: int = encode_utf8(username).len() as int + 1;
        assert(credential_bytes(username, p1).skip(k) =~= encode_utf8(p1));
        assert(credential_bytes(username, p2).skip(k) =~= encode_utf8(p2));
        vstd::utf8::encode_utf8_decode_utf8(p1);
        vstd::utf8::encode_utf8_decode_utf8(p2);
    }
}

/// Pool key for a credential pair.
pub fn hash_credentials(username: &str, password: &str) -> (k: CredentialKey)
    ensures
        k.0@ == username@,
        k.1@ == sha256(credential_bytes(username@, password@)),
{
    let mut data: Vec<u8> = Vec::new();
    data.extend_from_slice(username.as_bytes());
    data.push(58u8);
    data.extend_from_slice(password.as_bytes());
    assert(data@ =~= credential_bytes(username@, password@));
    let digest = sha256_digest(data.as_slice());
    (String::from_str(username), digest)
}

/// Credentials a connection is opened with: those given, otherwise the
/// startup credentials of the configuration.
pub open spec fn chosen_credentials(
    creds: Option<(Seq<char>, Seq<char>)>,
    auth: AuthConfig,
) -> (Seq<char>, Seq<char>) {
    match creds {
        Some(c) => c,
        None => (auth.startup_username@, auth.startup_password@),
    }
}

/// The username and password a pooled connection is looked up or opened
/// with.
pub fn resolve_credentials(creds: Option<(&str, &str)>, auth: &AuthConfig) -> (r: (String, String))
    ensures
        (r.0@, r.1@) == chosen_credentials(
            match creds {
                Some(c) => Some((c.0@, c.1@)),
                None => None,
            },
            *auth,
        ),
{
    match creds {
        Some((u, p)) => (String::from_str(u), String::from_str(p)),
        None => (auth.startup_username.clone(), auth.startup_password.clone()),
    }
}

/// Client settings for one Fluss connection.
#[derive(Debug)]
pub struct ConnectionSettings {
    pub bootstrap_servers: String,
    pub security_protocol: String,
    pub security_sasl_mechanism: String,
    pub security_sasl_username: String,
    pub security_sasl_password: String,
}

/// Settings for a connection to `coordinator` with the given credentials:
/// SASL/PLAIN when both username and password are non-empty, no security
/// protocol otherwise.
pub fn connection_settings(coordinator: &str, username: &str, password: &str) -> (s:
    ConnectionSettings)
    ensures
        s.bootstrap_servers@ == coordinator@,
        s.security_sasl_username@ == username@,
        s.security_sasl_password@ == password@,
        (username@.len() > 0 && password@.len() > 0) ==> s.security_protocol@ == "sasl"@
            && s.security_sasl_mechanism@ == "PLAIN"@,
        !(username@.len() > 0 && password@.len() > 0) ==> s.security_protocol@ == Seq::<
            char,
        >::empty() && s.security_sasl_mechanism@ == Seq::<char>::empty(),
{
    let sasl = !username.is_empty() && !password.is_empty();
    ConnectionSettings {
        bootstrap_servers: String::from_str(coordinator),
        security_protocol: if sasl {
            String::from_str("sasl")
        } else {
            String::new()
        },
        security_sasl_mechanism: if sasl {
            String::from_str("PLAIN")
        } else {
            String::new()
        },
        security_sasl_username: String::from_str(username),
        security_sasl_password: String::from_str(password),
    }
}

} // verus!
