use fluss_gateway::config::{AuthConfig, AuthType};
use fluss_gateway::pool::{connection_settings, hash_credentials, resolve_credentials};
use sha2::{Digest, Sha256};

#[test]
fn credential_key_is_sha256_of_user_colon_password() {
    let (user, digest) = hash_credentials("alice", "secret");
    assert_eq!(user, "alice");
    let expected: [u8; 32] = Sha256::digest(b"alice:secret").into();
    assert_eq!(digest, expected);
    // a known value: SHA-256("user:pass")
    let (_, d) = hash_credentials("user", "pass");
    assert_eq!(fluss_gateway::backend::hex_encode(&d), "ef4c914c591698b268db3c64163eafda7209a630f236ebf0eebf045460df723a");
    assert_ne!(hash_credentials("alice", "secret").1, hash_credentials("alice", "other").1);
}

#[test]
fn credentials_default_to_startup_ones() {
    let auth = AuthConfig { auth_type: AuthType::NoAuth, startup_username: "boot".into(), startup_password: "pw".into() };
    assert_eq!(resolve_credentials(None, &auth), ("boot".to_string(), "pw".to_string()));
    assert_eq!(resolve_credentials(Some(("u", "p")), &auth), ("u".to_string(), "p".to_string()));
}

#[test]
fn sasl_only_with_both_credentials() {
    let s = connection_settings("host:9123", "u", "p");
    assert_eq!(s.bootstrap_servers, "host:9123");
    assert_eq!(s.security_protocol, "sasl");
    assert_eq!(s.security_sasl_mechanism, "PLAIN");
    assert_eq!(s.security_sasl_username, "u");
    let s = connection_settings("host:9123", "u", "");
    assert_eq!(s.security_protocol, "");
    assert_eq!(s.security_sasl_mechanism, "");
    let s = connection_settings("host:9123", "", "p");
    assert_eq!(s.security_protocol, "");
}

#[test]
fn keys_tell_credential_pairs_apart() {
    assert_eq!(hash_credentials("a", "b:c"), hash_credentials("a", "b:c"));
    assert_ne!(hash_credentials("a", "b:c"), hash_credentials("a:b", "c"));
    assert_ne!(hash_credentials("a", "b").1, hash_credentials("a", "c").1);
}
