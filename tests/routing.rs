use vault_auth::crypto::{create_hash_with, hash_with_salt, verify_auth_token_at, HashConfig, HashVariant};
use vault_auth::data::{StoredUser, User};
use vault_auth::errors::{CustomErrors, LoginError, RegisterError, TokenError};
use vault_auth::routing::{
    handle_rejection, login_outcome, login_outcome_at, login_reply, registration_reply, RejectionKind,
};

const SECRET: &[u8] = b"routing secret";

fn light() -> HashConfig {
    HashConfig { variant: HashVariant::Argon2i, mem_cost: 64, time_cost: 1, lanes: 1, hash_length: 32 }
}

fn body(name: &str, password: &str) -> User {
    User { username: name.to_string(), password: password.to_string() }
}

fn stored(name: &str, password: &str) -> StoredUser {
    StoredUser {
        username: name.to_string(),
        password_hash: create_hash_with(&password.to_string(), &light()).unwrap(),
        vault: Vec::new(),
    }
}

#[test]
fn login_with_right_password_gives_a_token_for_the_user() {
    let r = login_outcome_at(&body("alice", "pw1"), Some(stored("alice", "pw1")), SECRET, 5000);
    let token = r.unwrap();
    assert_eq!(verify_auth_token_at(&token, SECRET, 5001), Ok("alice".to_string()));
    assert_eq!(verify_auth_token_at(&token, SECRET, 5000 + 259200), Err(TokenError::Expired));
}

#[test]
fn login_with_wrong_password_is_bad_credentials() {
    let r = login_outcome_at(&body("alice", "nope"), Some(stored("alice", "pw1")), SECRET, 5000);
    assert_eq!(r, Err(LoginError::BadCredentials));
}

#[test]
fn login_of_unknown_user_is_no_such_user() {
    assert_eq!(login_outcome_at(&body("ghost", "pw"), None, SECRET, 5000), Err(LoginError::NoSuchUser));
    assert_eq!(login_outcome(&body("ghost", "pw"), Ok(None), SECRET), Err(LoginError::NoSuchUser));
}

#[test]
fn login_with_a_corrupt_stored_hash_is_bad_credentials() {
    let u = StoredUser { username: "a".to_string(), password_hash: "garbage".to_string(), vault: Vec::new() };
    assert_eq!(login_outcome_at(&body("a", "pw"), Some(u), SECRET, 0), Err(LoginError::BadCredentials));
}

#[test]
fn login_now_gives_a_live_token() {
    let token = login_outcome(&body("carol", "pw"), Ok(Some(stored("carol", "pw"))), SECRET).unwrap();
    assert_eq!(vault_auth::crypto::verify_auth_token(&token, SECRET), Ok("carol".to_string()));
}

#[test]
fn login_lookup_faults_are_sorted() {
    let r = login_outcome(&body("a", "pw"), Err(CustomErrors::QueryError("gone".to_string())), SECRET);
    assert_eq!(r, Err(LoginError::StorageUnavailable));
    let r = login_outcome(&body("a", "pw"), Err(CustomErrors::VaultDecodeError), SECRET);
    assert_eq!(r, Err(LoginError::Internal));
}

#[test]
fn login_token_issue_failure_is_internal() {
    let r = login_outcome_at(&body("alice", "pw1"), Some(stored("alice", "pw1")), SECRET, i64::MAX);
    assert_eq!(r, Err(LoginError::Internal));
}

#[test]
fn registration_replies() {
    let ok = registration_reply(&Ok(()));
    assert_eq!((ok.status, ok.body.id.as_str()), (200, "RegistrationSuccess"));
    assert_eq!(ok.body.message, "Successfully registered.");
    let dup = registration_reply(&Err(RegisterError::DuplicateUser));
    assert_eq!((dup.status, dup.body.id.as_str()), (400, "RegistrationError"));
    assert_eq!(dup.body.message, "Error registering user.");
}

#[test]
fn login_replies() {
    let ok = login_reply(Ok("tok".to_string()));
    assert_eq!((ok.status, ok.body.id.as_str(), ok.body.message.as_str()), (200, "LoginSuccess", "tok"));
    let bad = login_reply(Err(LoginError::BadCredentials));
    assert_eq!((bad.status, bad.body.id.as_str(), bad.body.message.as_str()), (200, "LoginError", "Unable to login"));
    let none = login_reply(Err(LoginError::NoSuchUser));
    assert_eq!((none.status, none.body.id.as_str()), (400, "NoSuchUser"));
    assert_eq!(none.body.message, "The user specified does not exist.");
    let store = login_reply(Err(LoginError::StorageUnavailable));
    assert_eq!((store.status, store.body.message.as_str()), (400, "Could not execute request"));
    let internal = login_reply(Err(LoginError::Internal));
    assert_eq!((internal.status, internal.body.message.as_str()), (500, "Internal Server Error"));
}

#[test]
fn rejection_replies() {
    let cases = vec![
        (RejectionKind::NotFound, 404, "Not Found"),
        (RejectionKind::InvalidBody, 400, "Invalid Body"),
        (RejectionKind::Application(CustomErrors::QueryError("q".to_string())), 400, "Could not execute request"),
        (RejectionKind::Application(CustomErrors::UnexpectedError), 500, "Internal Server Error"),
        (RejectionKind::MethodNotAllowed, 405, "Method Not Allowed"),
        (RejectionKind::Unhandled, 500, "Internal Server Error"),
    ];
    for (kind, status, message) in cases {
        let r = handle_rejection(&kind);
        assert_eq!((r.status, r.message.as_str()), (status, message));
    }
}

#[test]
fn stored_hash_from_fixed_salt_logs_in() {
    let h = hash_with_salt("pw", &[9u8; 32], &light()).unwrap();
    let u = StoredUser { username: "d".to_string(), password_hash: h, vault: Vec::new() };
    assert!(login_outcome_at(&body("d", "pw"), Some(u), SECRET, 0).is_ok());
}
