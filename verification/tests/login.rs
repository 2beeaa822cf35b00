use podfetch::auth::login;
use podfetch::auth::issue_session;
use podfetch::auth::CredentialError;
use podfetch::auth::LoginOutcome;
use podfetch::auth::Refusal;
use podfetch::environment::EnvironmentService;
use podfetch::role::Role;
use podfetch::session::create_session_cookie;
use podfetch::session::SameSite;
use podfetch::session::Session;
use podfetch::store::SessionStore;
use podfetch::store::StoreError;
use podfetch::store::UserStore;
use podfetch::user::User;

const PW1_DIGEST: &str = "c592df4a86933b92addc9842402ddf198c638ea9be58916ee6e3734e1e3152f8";

fn bootstrap_env() -> EnvironmentService {
    EnvironmentService::new(Some("admin".to_string()), Some("secret".to_string()), false, false)
}

fn plain_env() -> EnvironmentService {
    EnvironmentService::new(None, None, false, false)
}

fn store_with_alice() -> UserStore {
    let mut store = UserStore::new();
    let alice = User::new(
        0,
        "alice".to_string(),
        Role::Regular,
        Some(PW1_DIGEST.to_string()),
        0,
        false,
    );
    assert!(store.insert(alice).is_ok());
    store
}

fn header(value: &str) -> Option<String> {
    Some(value.to_string())
}

#[test]
fn bootstrap_pair_is_accepted_without_cookie() {
    let env = bootstrap_env();
    let users = UserStore::new();
    let mut sessions = SessionStore::new();
    let outcome = login(
        "admin",
        &None,
        &header("Basic YWRtaW46c2VjcmV0"),
        "t1".to_string(),
        &env,
        &users,
        &mut sessions,
    );
    assert!(matches!(outcome, LoginOutcome::Bootstrap));
    assert_eq!(outcome.status(), 200);
    assert!(outcome.cookie().is_none());
    assert_eq!(sessions.len(), 0);
}

#[test]
fn bootstrap_name_with_wrong_password_is_refused() {
    let env = bootstrap_env();
    let users = UserStore::new();
    let mut sessions = SessionStore::new();
    let outcome = login(
        "admin",
        &None,
        &header("Basic YWRtaW46d3Jvbmc="),
        "t1".to_string(),
        &env,
        &users,
        &mut sessions,
    );
    assert!(matches!(outcome, LoginOutcome::Unauthorized(Refusal::WrongSecret)));
    assert_eq!(outcome.status(), 401);
    assert!(outcome.cookie().is_none());
    assert_eq!(sessions.len(), 0);
}

#[test]
fn stored_identity_logs_in_and_its_cookie_round_trips() {
    let env = bootstrap_env();
    let users = store_with_alice();
    let mut sessions = SessionStore::new();
    let first = login(
        "alice",
        &None,
        &header("Basic YWxpY2U6cHcx"),
        "token-one".to_string(),
        &env,
        &users,
        &mut sessions,
    );
    assert_eq!(first.status(), 200);
    let cookie = first.cookie().expect("a session cookie");
    assert_eq!(cookie.name, "sessionid");
    assert_eq!(cookie.value, "token-one");
    assert_eq!(sessions.len(), 1);
    let stored = sessions.find_by_session_id("token-one").expect("the session");
    assert_eq!(stored.username, "alice");

    let second = login(
        "alice",
        &Some(cookie.value.clone()),
        &None,
        "token-two".to_string(),
        &env,
        &users,
        &mut sessions,
    );
    assert_eq!(second.status(), 200);
    match second {
        LoginOutcome::Session(session) => {
            assert_eq!(session.session_id, "token-one");
            assert_eq!(session.username, "alice");
        }
        _ => panic!("the cookie was not accepted"),
    }
    assert_eq!(sessions.len(), 1);
}

#[test]
fn wrong_secret_is_refused() {
    let env = plain_env();
    let users = store_with_alice();
    let mut sessions = SessionStore::new();
    let outcome = login(
        "alice",
        &None,
        &header("Basic YWxpY2U6cHcy"),
        "t".to_string(),
        &env,
        &users,
        &mut sessions,
    );
    assert!(matches!(outcome, LoginOutcome::Unauthorized(Refusal::WrongSecret)));
    assert_eq!(outcome.status(), 401);
    assert_eq!(sessions.len(), 0);
}

#[test]
fn plain_secret_is_never_compared_with_the_digest() {
    let env = plain_env();
    let mut users = UserStore::new();
    let bob = User::new(0, "bob".to_string(), Role::Regular, Some("x".to_string()), 0, false);
    assert!(users.insert(bob).is_ok());
    let mut sessions = SessionStore::new();
    let outcome = login(
        "bob",
        &None,
        &header("Basic Ym9iOng="),
        "t".to_string(),
        &env,
        &users,
        &mut sessions,
    );
    assert!(matches!(outcome, LoginOutcome::Unauthorized(Refusal::WrongSecret)));
}

#[test]
fn unknown_cookie_falls_back_to_credentials() {
    let env = plain_env();
    let users = store_with_alice();
    let mut sessions = SessionStore::new();
    let accepted = login(
        "alice",
        &Some("stale".to_string()),
        &header("Basic YWxpY2U6cHcx"),
        "fresh".to_string(),
        &env,
        &users,
        &mut sessions,
    );
    match accepted {
        LoginOutcome::Session(session) => assert_eq!(session.session_id, "fresh"),
        _ => panic!("the credentials were not judged"),
    }
    let refused = login(
        "alice",
        &Some("stale".to_string()),
        &None,
        "other".to_string(),
        &env,
        &users,
        &mut sessions,
    );
    assert!(matches!(refused, LoginOutcome::Unauthorized(Refusal::MissingHeader)));
    assert_eq!(sessions.len(), 1);
}

#[test]
fn known_cookie_wins_over_bad_credentials() {
    let env = plain_env();
    let users = store_with_alice();
    let mut sessions = SessionStore::new();
    assert_eq!(
        sessions.insert_session(&Session::new("alice".to_string(), "sid".to_string())),
        Ok(())
    );
    let outcome = login(
        "somebody",
        &Some("sid".to_string()),
        &header("garbage"),
        "t".to_string(),
        &env,
        &users,
        &mut sessions,
    );
    match outcome {
        LoginOutcome::Session(session) => {
            assert_eq!(session.session_id, "sid");
            assert_eq!(session.username, "alice");
        }
        _ => panic!("the cookie was not accepted"),
    }
    assert_eq!(sessions.len(), 1);
}

#[test]
fn missing_or_malformed_header_is_refused() {
    let env = bootstrap_env();
    let users = store_with_alice();
    let mut sessions = SessionStore::new();
    let none = login("alice", &None, &None, "t".to_string(), &env, &users, &mut sessions);
    assert_eq!(none.status(), 401);
    assert!(matches!(none, LoginOutcome::Unauthorized(Refusal::MissingHeader)));
    for (bad, why) in [
        ("", CredentialError::NotBasic),
        ("Bearer YWxpY2U6cHcx", CredentialError::NotBasic),
        ("Basic ???", CredentialError::InvalidBase64),
        ("Basic //4=", CredentialError::InvalidUtf8),
        ("Basic YWRtaW4=", CredentialError::MissingColon),
    ] {
        let outcome =
            login("alice", &None, &header(bad), "t".to_string(), &env, &users, &mut sessions);
        assert_eq!(outcome.status(), 401);
        match outcome {
            LoginOutcome::Unauthorized(reason) => assert_eq!(reason, Refusal::BadHeader(why)),
            _ => panic!("the header was accepted"),
        }
    }
    assert_eq!(sessions.len(), 0);
}

#[test]
fn claimed_identity_must_be_the_one_in_the_path() {
    let env = bootstrap_env();
    let users = store_with_alice();
    let mut sessions = SessionStore::new();
    let outcome = login(
        "bob",
        &None,
        &header("Basic YWxpY2U6cHcx"),
        "t".to_string(),
        &env,
        &users,
        &mut sessions,
    );
    assert!(matches!(outcome, LoginOutcome::Unauthorized(Refusal::IdentityMismatch)));
    let shortcut = login(
        "alice",
        &None,
        &header("Basic YWRtaW46c2VjcmV0"),
        "t".to_string(),
        &env,
        &users,
        &mut sessions,
    );
    assert!(matches!(shortcut, LoginOutcome::Unauthorized(Refusal::IdentityMismatch)));
    assert_eq!(sessions.len(), 0);
}

#[test]
fn unknown_identity_is_refused() {
    let env = plain_env();
    let users = store_with_alice();
    let mut sessions = SessionStore::new();
    let outcome = login(
        "bob",
        &None,
        &header("Basic Ym9iOng="),
        "t".to_string(),
        &env,
        &users,
        &mut sessions,
    );
    assert!(matches!(outcome, LoginOutcome::Unauthorized(Refusal::UnknownIdentity)));
}

#[test]
fn identity_without_digest_is_refused() {
    let env = plain_env();
    let mut users = UserStore::new();
    let bob = User::new(0, "bob".to_string(), Role::Admin, None, 0, true);
    assert!(users.insert(bob).is_ok());
    let mut sessions = SessionStore::new();
    let outcome = login(
        "bob",
        &None,
        &header("Basic Ym9iOng="),
        "t".to_string(),
        &env,
        &users,
        &mut sessions,
    );
    assert!(matches!(outcome, LoginOutcome::Unauthorized(Refusal::WrongSecret)));
}

#[test]
fn taken_token_is_a_store_failure() {
    let env = plain_env();
    let users = store_with_alice();
    let mut sessions = SessionStore::new();
    assert_eq!(
        sessions.insert_session(&Session::new("carol".to_string(), "taken".to_string())),
        Ok(())
    );
    let outcome = login(
        "alice",
        &None,
        &header("Basic YWxpY2U6cHcx"),
        "taken".to_string(),
        &env,
        &users,
        &mut sessions,
    );
    assert!(matches!(outcome, LoginOutcome::StoreFailure));
    assert_eq!(outcome.status(), 500);
    assert_eq!(sessions.len(), 1);
    assert_eq!(sessions.find_by_session_id("taken").expect("the session").username, "carol");
}

#[test]
fn two_logins_get_two_sessions() {
    let env = plain_env();
    let users = store_with_alice();
    let mut sessions = SessionStore::new();
    for token in ["one", "two"] {
        let outcome = login(
            "alice",
            &None,
            &header("Basic YWxpY2U6cHcx"),
            token.to_string(),
            &env,
            &users,
            &mut sessions,
        );
        assert_eq!(outcome.status(), 200);
    }
    assert_eq!(sessions.len(), 2);
    assert_eq!(sessions.find_by_session_id("one").expect("first").username, "alice");
    assert_eq!(sessions.find_by_session_id("two").expect("second").username, "alice");
}

#[test]
fn digest_is_checked_against_the_stored_one() {
    let mut sessions = SessionStore::new();
    let alice = User::new(7, "alice".to_string(), Role::Regular, Some("d1".to_string()), 0, true);
    let accepted = issue_session(Some(alice.clone()), "d1", "t".to_string(), &mut sessions);
    match accepted {
        LoginOutcome::Session(session) => {
            assert_eq!(session.username, "alice");
            assert_eq!(session.session_id, "t");
        }
        _ => panic!("the digest was not accepted"),
    }
    let refused = issue_session(Some(alice.clone()), "d2", "u".to_string(), &mut sessions);
    assert!(matches!(refused, LoginOutcome::Unauthorized(Refusal::WrongSecret)));
    let absent = issue_session(None, "d1", "u".to_string(), &mut sessions);
    assert!(matches!(absent, LoginOutcome::Unauthorized(Refusal::UnknownIdentity)));
    let taken = issue_session(Some(alice), "d1", "t".to_string(), &mut sessions);
    assert!(matches!(taken, LoginOutcome::StoreFailure));
    assert_eq!(sessions.len(), 1);
}

#[test]
fn session_cookie_has_its_attributes() {
    let cookie = create_session_cookie(Session::new("alice".to_string(), "abc123".to_string()));
    assert_eq!(cookie.name, "sessionid");
    assert_eq!(cookie.value, "abc123");
    assert!(cookie.http_only);
    assert!(!cookie.secure);
    assert_eq!(cookie.same_site, SameSite::Strict);
    assert_eq!(cookie.path, "/api");
}

#[test]
fn session_store_finds_by_identifier_only() {
    let mut sessions = SessionStore::new();
    assert!(sessions.find_by_session_id("a").is_none());
    assert_eq!(sessions.insert_session(&Session::new("alice".to_string(), "a".to_string())), Ok(()));
    assert_eq!(sessions.insert_session(&Session::new("alice".to_string(), "b".to_string())), Ok(()));
    assert_eq!(
        sessions.insert_session(&Session::new("bob".to_string(), "a".to_string())),
        Err(StoreError::Duplicate)
    );
    assert_eq!(sessions.len(), 2);
    assert_eq!(sessions.find_by_session_id("a").expect("a").username, "alice");
    assert!(sessions.find_by_session_id("alice").is_none());
    assert!(sessions.find_by_session_id("A").is_none());
}
