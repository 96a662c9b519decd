use fluss_gateway::server::auth::{credentials_from_decoded, parse_basic_auth};

#[test]
fn test_parse_basic_auth() {
    let creds = parse_basic_auth("Basic dXNlcjpwYXNz").unwrap();
    assert_eq!(creds.username, "user");
    assert_eq!(creds.password, "pass");
}

#[test]
fn test_parse_basic_auth_invalid() {
    assert!(parse_basic_auth("Bearer token").is_none());
    assert!(parse_basic_auth("Basic notbase64").is_none());
    assert!(parse_basic_auth("Basic dXNlcg==").is_none()); // no colon
}

#[test]
fn test_parse_basic_auth_empty_user() {
    assert!(parse_basic_auth("Basic OnBhc3M=").is_none()); // :pass
}

#[test]
fn basic_auth_password_keeps_later_colons() {
    // "a:b:c"
    let creds = parse_basic_auth("Basic YTpiOmM=").unwrap();
    assert_eq!(creds.username, "a");
    assert_eq!(creds.password, "b:c");
    // "user:" has an empty password
    let creds = parse_basic_auth("Basic dXNlcjo=").unwrap();
    assert_eq!(creds.password, "");
}

#[test]
fn basic_auth_prefix_is_case_sensitive() {
    assert!(parse_basic_auth("basic dXNlcjpwYXNz").is_none());
    assert!(parse_basic_auth("Basic").is_none());
    assert!(parse_basic_auth("").is_none());
}

#[test]
fn decoded_credentials() {
    let c = credentials_from_decoded(b"alice:secret".to_vec()).unwrap();
    assert_eq!(c.username, "alice");
    assert_eq!(c.password, "secret");
    assert!(credentials_from_decoded(vec![0xff, b':', b'x']).is_none());
    assert!(credentials_from_decoded(b"nocolon".to_vec()).is_none());
}
