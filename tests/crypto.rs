use vault_auth::crypto::{
    check_hash, create_auth_token, create_auth_token_at, create_hash, create_hash_with,
    hash_with_salt, judge_claims, token_expiry, verify_auth_token, verify_auth_token_at,
    HashConfig, HashVariant, TOKEN_LIFETIME_SECS,
};
use vault_auth::data::User;
use vault_auth::errors::{CustomErrors, TokenError};

const SECRET: &[u8] = b"a secret that only the tests know";

fn light() -> HashConfig {
    HashConfig { variant: HashVariant::Argon2i, mem_cost: 64, time_cost: 1, lanes: 1, hash_length: 32 }
}

fn user(name: &str, password: &str) -> User {
    User { username: name.to_string(), password: password.to_string() }
}

#[test]
fn hash_test() {
    let password = "testy string".to_string();
    let hash = create_hash(&password).unwrap();
    assert!(check_hash(&password, &hash));
}

#[test]
fn jwt_test() {
    let user = user("test1", "test2");
    let token = create_auth_token(&user, SECRET).unwrap();
    assert_eq!(verify_auth_token(&token, SECRET), Ok("test1".to_string()));
}

#[test]
fn standard_hash_embeds_its_parameters() {
    let salt = [7u8; 32];
    let h = hash_with_salt("pw", &salt, &HashConfig::standard()).unwrap();
    assert!(h.starts_with("$argon2i$v=19$m=65536,t=10,p=4$"), "{}", h);
    assert_ne!(h, "pw");
}

#[test]
fn hash_under_a_fixed_salt_is_repeatable() {
    let salt = [1u8; 32];
    let a = hash_with_salt("pw", &salt, &light()).unwrap();
    let b = hash_with_salt("pw", &salt, &light()).unwrap();
    assert_eq!(a, b);
    assert!(a.starts_with("$argon2i$v=19$m=64,t=1,p=1$"));
}

#[test]
fn argon2id_variant_is_used_when_asked() {
    let mut c = light();
    c.variant = HashVariant::Argon2id;
    let h = hash_with_salt("pw", &[3u8; 16], &c).unwrap();
    assert!(h.starts_with("$argon2id$"));
}

#[test]
fn bad_parameters_are_an_unexpected_error() {
    let r = hash_with_salt("pw", &[1u8; 4], &light());
    assert!(matches!(r, Err(CustomErrors::UnexpectedError)));
}

#[test]
fn hashing_twice_gives_two_strings_that_both_verify() {
    let p = "correct horse".to_string();
    let a = create_hash_with(&p, &light()).unwrap();
    let b = create_hash_with(&p, &light()).unwrap();
    assert_ne!(a, b);
    assert!(check_hash(&p, &a));
    assert!(check_hash(&p, &b));
}

#[test]
fn other_password_does_not_verify() {
    let h = create_hash_with(&"pw1".to_string(), &light()).unwrap();
    assert!(!check_hash(&"pw2".to_string(), &h));
    assert!(!check_hash(&"".to_string(), &h));
}

#[test]
fn malformed_hash_does_not_verify() {
    assert!(!check_hash(&"pw".to_string(), &"not a hash".to_string()));
    assert!(!check_hash(&"pw".to_string(), &"".to_string()));
}

#[test]
fn standard_config_is_strong() {
    let c = HashConfig::standard();
    assert!(c.mem_cost >= 65536 && c.time_cost >= 10 && c.lanes >= 4);
    assert_eq!(c.hash_length, 32);
}

#[test]
fn expiry_is_three_days_later() {
    assert_eq!(TOKEN_LIFETIME_SECS, 3 * 24 * 60 * 60);
    assert_eq!(token_expiry(0), Some(259200));
    assert_eq!(token_expiry(1_700_000_000), Some(1_700_259_200));
    assert_eq!(token_expiry(i64::MAX - 259200), Some(i64::MAX));
    assert_eq!(token_expiry(i64::MAX - 259199), None);
}

#[test]
fn token_is_valid_until_strictly_before_expiry() {
    let t = create_auth_token_at(&user("alice", "pw"), SECRET, 1000).unwrap();
    assert_eq!(verify_auth_token_at(&t, SECRET, 1000), Ok("alice".to_string()));
    assert_eq!(verify_auth_token_at(&t, SECRET, 260199), Ok("alice".to_string()));
    assert_eq!(verify_auth_token_at(&t, SECRET, 260200), Err(TokenError::Expired));
    assert_eq!(verify_auth_token_at(&t, SECRET, 999_999), Err(TokenError::Expired));
}

#[test]
fn expired_token_with_good_signature_is_refused() {
    let t = create_auth_token_at(&user("bob", "pw"), SECRET, 1000).unwrap();
    assert_eq!(verify_auth_token(&t, SECRET), Err(TokenError::Expired));
}

#[test]
fn token_under_another_secret_is_invalid() {
    let t = create_auth_token_at(&user("alice", "pw"), SECRET, 1000).unwrap();
    assert_eq!(verify_auth_token_at(&t, b"another secret", 1000), Err(TokenError::Invalid));
}

#[test]
fn garbage_token_is_invalid() {
    assert_eq!(verify_auth_token_at("not.a.token", SECRET, 0), Err(TokenError::Invalid));
    assert_eq!(verify_auth_token_at("", SECRET, 0), Err(TokenError::Invalid));
}

#[test]
fn token_does_not_carry_the_password() {
    let t = create_auth_token_at(&user("alice", "hunter2"), SECRET, 1000).unwrap();
    assert_eq!(t.split('.').count(), 3);
    assert!(!t.contains("hunter2"));
}

#[test]
fn token_issue_fails_when_expiry_overflows() {
    let r = create_auth_token_at(&user("alice", "pw"), SECRET, i64::MAX);
    assert!(matches!(r, Err(CustomErrors::UnexpectedError)));
}

#[test]
fn claims_verdicts() {
    assert_eq!(judge_claims(None, 0), Err(TokenError::Invalid));
    assert_eq!(judge_claims(Some((None, Some(10))), 0), Err(TokenError::Malformed));
    assert_eq!(judge_claims(Some((Some("a".to_string()), None)), 0), Err(TokenError::Malformed));
    assert_eq!(judge_claims(Some((Some("a".to_string()), Some(10))), 9), Ok("a".to_string()));
    assert_eq!(judge_claims(Some((Some("a".to_string()), Some(10))), 10), Err(TokenError::Expired));
}

#[test]
fn shortest_accepted_salt_hashes() {
    assert!(hash_with_salt("pw", &[5u8; 8], &light()).is_ok());
    assert!(hash_with_salt("", &[5u8; 8], &light()).is_ok());
}

#[test]
fn too_little_memory_per_lane_is_an_unexpected_error() {
    let c = HashConfig { variant: HashVariant::Argon2i, mem_cost: 15, time_cost: 1, lanes: 2, hash_length: 32 };
    assert!(matches!(hash_with_salt("pw", &[5u8; 8], &c), Err(CustomErrors::UnexpectedError)));
}
