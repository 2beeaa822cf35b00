use podfetch::auth::basic_auth_login;
use podfetch::auth::basic_auth_payload;
use podfetch::auth::credentials_from_bytes;
use podfetch::auth::extract_basic_auth;
use podfetch::auth::split_credentials;
use podfetch::auth::CredentialError;

fn pair(identity: &str, secret: &str) -> (String, String) {
    (identity.to_string(), secret.to_string())
}

#[test]
fn header_decodes_to_identity_and_secret() {
    assert_eq!(extract_basic_auth("Basic YWRtaW46c2VjcmV0"), Ok(pair("admin", "secret")));
    assert_eq!(extract_basic_auth("Basic YWxpY2U6cHcx"), Ok(pair("alice", "pw1")));
}

#[test]
fn login_header_decodes_like_any_header() {
    assert_eq!(
        basic_auth_login("Basic YWRtaW46d3Jvbmc=".to_string()),
        Ok(pair("admin", "wrong"))
    );
    assert_eq!(basic_auth_login("YWRtaW46d3Jvbmc=".to_string()), Err(CredentialError::NotBasic));
}

#[test]
fn secret_keeps_its_later_colons() {
    assert_eq!(extract_basic_auth("Basic YTpiOmM="), Ok(pair("a", "b:c")));
}

#[test]
fn empty_identity_and_empty_secret_are_pairs() {
    assert_eq!(extract_basic_auth("Basic OnB3"), Ok(pair("", "pw")));
    assert_eq!(extract_basic_auth("Basic YWxpY2U6"), Ok(pair("alice", "")));
}

#[test]
fn text_beyond_ascii_is_decoded() {
    assert_eq!(
        extract_basic_auth("Basic asO8cmdlbjpww6Rzcw=="),
        Ok(pair("j\u{fc}rgen", "p\u{e4}ss"))
    );
}

#[test]
fn other_schemes_are_not_basic() {
    assert_eq!(extract_basic_auth(""), Err(CredentialError::NotBasic));
    assert_eq!(extract_basic_auth("Basic"), Err(CredentialError::NotBasic));
    assert_eq!(extract_basic_auth("Bearer YWRtaW46c2VjcmV0"), Err(CredentialError::NotBasic));
    assert_eq!(extract_basic_auth("basic YWRtaW46c2VjcmV0"), Err(CredentialError::NotBasic));
    assert_eq!(extract_basic_auth("BasicYWRtaW46c2VjcmV0"), Err(CredentialError::NotBasic));
}

#[test]
fn payload_must_be_base64() {
    assert_eq!(extract_basic_auth("Basic !!!"), Err(CredentialError::InvalidBase64));
    assert_eq!(extract_basic_auth("Basic YWRtaW4"), Err(CredentialError::InvalidBase64));
    assert_eq!(
        extract_basic_auth("Basic YWRtaW46c2VjcmV0 trailing"),
        Err(CredentialError::InvalidBase64)
    );
}

#[test]
fn decoded_bytes_must_be_utf8() {
    assert_eq!(extract_basic_auth("Basic //4="), Err(CredentialError::InvalidUtf8));
    assert_eq!(credentials_from_bytes(vec![0xff, 0xfe]), Err(CredentialError::InvalidUtf8));
}

#[test]
fn decoded_text_must_hold_a_colon() {
    assert_eq!(extract_basic_auth("Basic YWRtaW4="), Err(CredentialError::MissingColon));
    assert_eq!(extract_basic_auth("Basic "), Err(CredentialError::MissingColon));
    assert_eq!(credentials_from_bytes(b"admin".to_vec()), Err(CredentialError::MissingColon));
}

#[test]
fn bytes_are_read_as_a_pair() {
    assert_eq!(credentials_from_bytes(b"bob:x".to_vec()), Ok(pair("bob", "x")));
    assert_eq!(credentials_from_bytes(b":".to_vec()), Ok(pair("", "")));
}

#[test]
fn payload_is_what_follows_the_scheme() {
    assert_eq!(basic_auth_payload("Basic abc"), Some("abc".to_string()));
    assert_eq!(basic_auth_payload("Basic "), Some(String::new()));
    assert_eq!(basic_auth_payload("Basic  abc"), Some(" abc".to_string()));
    assert_eq!(basic_auth_payload("Basi"), None);
    assert_eq!(basic_auth_payload("Digest abc"), None);
}

#[test]
fn text_splits_at_its_first_colon() {
    assert_eq!(split_credentials("a:b"), Some(pair("a", "b")));
    assert_eq!(split_credentials("a::b"), Some(pair("a", ":b")));
    assert_eq!(split_credentials(":"), Some(pair("", "")));
    assert_eq!(split_credentials("\u{e9}t\u{e9}:\u{fc}"), Some(pair("\u{e9}t\u{e9}", "\u{fc}")));
    assert_eq!(split_credentials("no colon"), None);
    assert_eq!(split_credentials(""), None);
}
