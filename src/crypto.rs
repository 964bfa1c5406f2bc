use vstd::prelude::*;
use crate::data::{Claims, User};
use crate::errors::{CustomErrors, TokenError};
use rand::RngCore;
use vstd::utf8::{encode_scalar, encode_utf8};

verus! {

#[verifier::external_type_specification]
#[verifier::external_body]
pub struct ExArgon2Error(argon2::Error);

#[verifier::external_type_specification]
#[verifier::external_body]
pub struct ExJwtError(jsonwebtoken::errors::Error);

// ---------------------------------------------------------------------------
// Password hashing
// ---------------------------------------------------------------------------

/// Length in bytes of the random salt drawn for each hash.
pub const SALT_LEN: usize = 32;

/// The Argon2 variants that a hash may use.
#[derive(PartialEq, Eq, Structural, Debug, Clone, Copy)]
pub enum HashVariant {
    Argon2i,
    Argon2id,
}

/// The parameters of a password hash: memory in KiB, passes, lanes and the
/// digest length in bytes.
#[derive(PartialEq, Eq, Structural, Debug, Clone, Copy)]
pub struct HashConfig {
    pub variant: HashVariant,
    pub mem_cost: u32,
    pub time_cost: u32,
    pub lanes: u32,
    pub hash_length: u32,
}

impl HashConfig {
    /// The strength that stored password hashes must have: at least 64 MiB of
    /// memory, 10 passes and 4 lanes, and a 32-byte digest.
    pub open spec fn is_strong(&self) -> bool {
        &&& self.mem_cost >= 65536
        &&& self.time_cost >= 10
        &&& self.lanes >= 4
        &&& self.hash_length == 32
    }

    /// The parameters used for every new password hash.
    pub open spec fn standard_spec() -> HashConfig {
        HashConfig {
            variant: HashVariant::Argon2i,
            mem_cost: 65536,
            time_cost: 10,
            lanes: 4,
            hash_length: 32,
        }
    }

    /// The parameters used for every new password hash.
    pub fn standard() -> (r: HashConfig)
        ensures
            r.is_strong(),
            r == HashConfig::standard_spec(),
    {
        HashConfig {
            variant: HashVariant::Argon2i,
            mem_cost: 65536,
            time_cost: 10,
            lanes: 4,
            hash_length: 32,
        }
    }
}

/// The encoded Argon2 hash (version 0x13, no secret, no associated data) that
/// rust-argon2 computes for a password, a salt and the parameters.
pub uninterp spec fn argon2_encoded(
    password: Seq<char>,
    salt: Seq<u8>,
    argon2id: bool,
    mem_cost: u32,
    time_cost: u32,
    lanes: u32,
    hash_length: u32,
) -> Seq<char>;

/// Whether rust-argon2 finds that an encoded hash is well formed and that the
/// password matches it.
pub uninterp spec fn argon2_accepts(encoded: Seq<char>, password: Seq<char>) -> bool;

/// The encoded hash of a password under a salt and a configuration.
pub open spec fn hash_of(password: Seq<char>, salt: Seq<u8>, c: HashConfig) -> Seq<char> {
    argon2_encoded(
        password,
        salt,
        c.variant == HashVariant::Argon2id,
        c.mem_cost,
        c.time_cost,
        c.lanes,
        c.hash_length,
    )
}

/// Relies on rand::thread_rng and RngCore::fill_bytes: `n` bytes from the
/// thread's cryptographically secure generator.
#[verifier::external_body]
fn random_bytes(n: usize) -> (r: Vec<u8>)
    ensures
        r@.len() == n,
{
    let mut bytes = vec![0u8; n];
    rand::thread_rng().fill_bytes(&mut bytes);
    bytes
}

/// Relies on argon2::hash_encoded: hashes the password's UTF-8 bytes with the
/// salt and the given parameters, and encodes algorithm, version, parameters,
/// salt and digest in one string.
#[verifier::external_body]
fn argon2_hash_encoded(password: &str, salt: &[u8], c: &HashConfig) -> (r: Result<
    String,
    argon2::Error,
>)
    ensures
        r matches Ok(h) ==> h@ == argon2_encoded(
            password@,
            salt@,
            c.variant == HashVariant::Argon2id,
            c.mem_cost,
            c.time_cost,
            c.lanes,
            c.hash_length,
        ),
        r matches Ok(h) ==> argon2_accepts(h@, password@),
        1 <= c.lanes <= 0xFF_FFFF && 8 * c.lanes <= c.mem_cost <= 0x20_0000 && c.time_cost >= 1
            && c.hash_length >= 4 && 8 <= salt@.len() <= u32::MAX && encode_utf8(password@).len()
            <= u32::MAX ==> r is Ok,
{
    let variant = match c.variant {
        HashVariant::Argon2i => argon2::Variant::Argon2i,
        HashVariant::Argon2id => argon2::Variant::Argon2id,
    };
    let config = argon2::Config {
        variant,
        version: argon2::Version::Version13,
        mem_cost: c.mem_cost, time_cost: c.time_cost, lanes: c.lanes, hash_length: c.hash_length,
        thread_mode: argon2::ThreadMode::Parallel,
        secret: &[],
        ad: &[],
    };
    argon2::hash_encoded(password.as_bytes(), salt, &config)
}

/// Relies on argon2::verify_encoded: reads the parameters and salt from the
/// encoded hash, hashes the password again and compares the digests; an
/// encoded hash that cannot be read gives an error.
#[verifier::external_body]
fn argon2_verify_encoded(encoded: &str, password: &str) -> (r: Result<bool, argon2::Error>)
    ensures
        (r == Ok::<bool, argon2::Error>(true)) == argon2_accepts(encoded@, password@),
{
    argon2::verify_encoded(encoded, password.as_bytes())
}

/// The parameters that rust-argon2 accepts on every platform: 1 to 2^24 - 1
/// lanes, at least 8 KiB of memory per lane and at most 2 GiB, at least one
/// pass and a digest of at least 4 bytes.
pub open spec fn accepted_config(c: HashConfig) -> bool {
    &&& 1 <= c.lanes <= 0xFF_FFFF
    &&& 8 * c.lanes <= c.mem_cost <= 0x20_0000
    &&& c.time_cost >= 1
    &&& c.hash_length >= 4
}

/// A password short enough to be hashed: its UTF-8 encoding fits in 2^32 - 1
/// bytes.
pub open spec fn hashable(password: Seq<char>) -> bool {
    encode_utf8(password).len() <= u32::MAX
}

/// A password of at most 2^30 - 1 characters is short enough to be hashed:
/// UTF-8 takes at most four bytes for a character.
pub proof fn lemma_short_password_hashable(password: Seq<char>)
    requires
        password.len() <= 0x3FFF_FFFF,
    ensures
        hashable(password),
{
    lemma_utf8_length_bound(password);
}

proof fn lemma_utf8_length_bound(chars: Seq<char>)
    ensures
        encode_utf8(chars).len() <= 4 * chars.len(),
    decreases chars.len(),
{
    if chars.len() > 0 {
        lemma_utf8_length_bound(chars.drop_first());
        assert(encode_scalar(chars[0] as u32).len() <= 4);
    }
}

/// Hashes a password under a given salt and configuration; this succeeds for
/// every accepted configuration and every salt of 8 bytes or more.
pub fn hash_with_salt(password: &str, salt: &[u8], config: &HashConfig) -> (r: Result<
    String,
    CustomErrors,
>)
    ensures
        match r {
            Ok(h) => h@ == hash_of(password@, salt@, *config) && argon2_accepts(h@, password@),
            Err(e) => e == CustomErrors::UnexpectedError,
        },
        accepted_config(*config) && 8 <= salt@.len() <= u32::MAX && hashable(password@) ==> r is Ok,
        accepted_config(*config) && 8 <= salt@.len() <= u32::MAX && password@.len() <= 0x3FFF_FFFF
            ==> r is Ok,
{
    proof {
        if password@.len() <= 0x3FFF_FFFF {
            lemma_short_password_hashable(password@);
        }
    }
    match argon2_hash_encoded(password, salt, config) {
        Ok(h) => Ok(h),
        Err(_) => Err(CustomErrors::UnexpectedError),
    }
}

/// `h` is a hash of `password` under the configuration and some salt of
/// `SALT_LEN` bytes, and checking the password against it succeeds.
pub open spec fn is_hash_of(password: Seq<char>, h: Seq<char>, config: HashConfig) -> bool {
    &&& exists|salt: Seq<u8>| salt.len() == SALT_LEN && h == #[trigger] hash_of(password, salt, config)
    &&& argon2_accepts(h, password)
}

/// Hashes a password under a fresh random salt of `SALT_LEN` bytes.
pub fn create_hash_with(password: &String, config: &HashConfig) -> (r: Result<String, CustomErrors>)
    ensures
        match r {
            Ok(h) => is_hash_of(password@, h@, *config),
            Err(e) => e == CustomErrors::UnexpectedError,
        },
        accepted_config(*config) && hashable(password@) ==> r is Ok,
        accepted_config(*config) && password@.len() <= 0x3FFF_FFFF ==> r is Ok,
{
    let salt = random_bytes(SALT_LEN);
    hash_with_salt(password.as_str(), salt.as_slice(), config)
}

/// Hashes a password with the standard configuration under a fresh random
/// salt.
pub fn create_hash(password: &String) -> (r: Result<String, CustomErrors>)
    ensures
        match r {
            Ok(h) => is_hash_of(password@, h@, HashConfig::standard_spec()),
            Err(e) => e == CustomErrors::UnexpectedError,
        },
        hashable(password@) ==> r is Ok,
        password@.len() <= 0x3FFF_FFFF ==> r is Ok,
{
    let config = HashConfig::standard();
    create_hash_with(password, &config)
}

/// A password checks against every hash made of it.
pub proof fn lemma_hash_then_check(password: Seq<char>, h: Seq<char>, config: HashConfig)
    requires
        is_hash_of(password, h, config),
    ensures
        argon2_accepts(h, password),
{
}

/// Checks a password against an encoded hash. A hash that cannot be read,
/// or any failure inside the check, counts as a mismatch.
pub fn check_hash(password: &String, hash: &String) -> (r: bool)
    ensures
        r == argon2_accepts(hash@, password@),
{
    match argon2_verify_encoded(hash.as_str(), password.as_str()) {
        Ok(b) => b,
        Err(_) => false,
    }
}

} // verus!

verus! {

// ---------------------------------------------------------------------------
// Session tokens
// ---------------------------------------------------------------------------

/// How long a token stays valid after it is issued: three days, in seconds.
pub const TOKEN_LIFETIME_SECS: i64 = 259200;

/// The token that jsonwebtoken signs with HMAC-SHA-512 under a secret, for
/// claims holding the subject (`sub`) and the expiry (`exp`).
pub uninterp spec fn hs512_token(subject: Seq<char>, exp: i64, secret: Seq<u8>) -> Seq<char>;

/// What jsonwebtoken reads from a token whose HMAC-SHA-512 signature checks
/// under a secret: the subject and the expiry where they are present and of
/// the right type. `None` where the token is not well formed or its signature
/// does not check.
pub uninterp spec fn hs512_claims(token: Seq<char>, secret: Seq<u8>) -> Option<
    (Option<Seq<char>>, Option<i64>),
>;

/// What a signed token was found to hold, as plain values.
pub open spec fn opened_view(o: Option<(Option<String>, Option<i64>)>) -> Option<
    (Option<Seq<char>>, Option<i64>),
> {
    match o {
        None => None,
        Some((s, e)) => Some(
            (
                match s {
                    None => None,
                    Some(x) => Some(x@),
                },
                e,
            ),
        ),
    }
}

/// Relies on chrono::Utc::now: the current time in whole seconds since the
/// Unix epoch.
#[verifier::external_body]
pub(crate) fn unix_now() -> (r: i64) {
    chrono::Utc::now().timestamp()
}

/// Relies on jsonwebtoken::encode with an HS512 header: signs the claims
/// `sub` and `exp` with the secret. With an HMAC key and an HMAC header, and
/// claims that always serialize, it does not fail; jsonwebtoken::decode with
/// the same secret reads both claims back.
#[verifier::external_body]
fn jwt_sign(claims: &Claims, secret: &[u8]) -> (r: Result<String, jsonwebtoken::errors::Error>)
    ensures
        r matches Ok(t) ==> t@ == hs512_token(claims.username@, claims.exp, secret@),
        r matches Ok(t) ==> hs512_claims(t@, secret@) == Some(
            (Some(claims.username@), Some(claims.exp)),
        ),
        r is Ok,
{
    let mut payload = serde_json::Map::new();
    payload.insert(String::from("sub"), serde_json::Value::from(claims.username.clone()));
    payload.insert(String::from("exp"), serde_json::Value::from(claims.exp));
    let header = jsonwebtoken::Header::new(jsonwebtoken::Algorithm::HS512);
    jsonwebtoken::encode(&header, &payload, &jsonwebtoken::EncodingKey::from_secret(secret))
}

/// Relies on jsonwebtoken::decode with HS512 and with no claim checked by
/// the crate: checks the token's form and signature and reads the claims
/// `sub` and `exp`.
#[verifier::external_body]
fn jwt_open(token: &str, secret: &[u8]) -> (r: Result<
    (Option<String>, Option<i64>),
    jsonwebtoken::errors::Error,
>)
    ensures
        match r {
            Ok(c) => hs512_claims(token@, secret@) == opened_view(Some(c)),
            Err(_) => hs512_claims(token@, secret@) is None,
        },
{
    let mut validation = jsonwebtoken::Validation::new(jsonwebtoken::Algorithm::HS512);
    validation.validate_exp = false;
    validation.required_spec_claims.clear();
    let key = jsonwebtoken::DecodingKey::from_secret(secret);
    let data = jsonwebtoken::decode::<serde_json::Value>(token, &key, &validation)?;
    Ok((data.claims["sub"].as_str().map(String::from), data.claims["exp"].as_i64()))
}

/// The expiry of a token issued at `now`, where it fits in an `i64`.
pub open spec fn expiry_after(now: i64) -> Option<i64> {
    if now + TOKEN_LIFETIME_SECS <= i64::MAX {
        Some((now + TOKEN_LIFETIME_SECS) as i64)
    } else {
        None
    }
}

/// The verdict on a token, given what its signature check found and the time.
/// A token is accepted if and only if its signature checks, it names a
/// subject and an expiry, and the time is strictly before the expiry.
pub open spec fn token_verdict(
    opened: Option<(Option<Seq<char>>, Option<i64>)>,
    now: i64,
) -> Result<Seq<char>, TokenError> {
    match opened {
        None => Err(TokenError::Invalid),
        Some((Some(subject), Some(exp))) => if now < exp {
            Ok(subject)
        } else {
            Err(TokenError::Expired)
        },
        Some(_) => Err(TokenError::Malformed),
    }
}

/// The view of a token check's result.
pub open spec fn verdict_view(r: Result<String, TokenError>) -> Result<Seq<char>, TokenError> {
    match r {
        Ok(s) => Ok(s@),
        Err(e) => Err(e),
    }
}

/// The expiry of a token issued at `now`: three days later.
pub fn token_expiry(now: i64) -> (r: Option<i64>)
    ensures
        r == expiry_after(now),
{
    if now <= i64::MAX - TOKEN_LIFETIME_SECS {
        Some(now + TOKEN_LIFETIME_SECS)
    } else {
        None
    }
}

/// `token` was issued at `now` to `subject` under `secret`: it is the signed
/// token of the subject and of the expiry three days after `now`, and its
/// signature check reads both back.
pub open spec fn issued_token(subject: Seq<char>, secret: Seq<u8>, now: i64, token: Seq<char>) -> bool {
    &&& expiry_after(now) is Some
    &&& token == hs512_token(subject, expiry_after(now)->Some_0, secret)
    &&& hs512_claims(token, secret) == Some((Some(subject), expiry_after(now)))
}

/// Issues a token for a user at time `now`. The claims carry the username and
/// the expiry, and nothing of the password. This fails only where the expiry
/// does not fit in an `i64`.
pub fn create_auth_token_at(user: &User, secret: &[u8], now: i64) -> (r: Result<
    String,
    CustomErrors,
>)
    ensures
        match r {
            Ok(t) => issued_token(user.username@, secret@, now, t@),
            Err(e) => expiry_after(now) is None && e == CustomErrors::UnexpectedError,
        },
        expiry_after(now) is Some ==> r is Ok,
{
    let exp = match token_expiry(now) {
        None => return Err(CustomErrors::UnexpectedError),
        Some(exp) => exp,
    };
    let claims = Claims { username: user.username.clone(), exp };
    match jwt_sign(&claims, secret) {
        Ok(t) => Ok(t),
        Err(_) => Err(CustomErrors::JWTEncodingError),
    }
}

/// Issues a token for a user that expires three days from now. This fails
/// only where the clock is so late that the expiry does not fit in an `i64`.
pub fn create_auth_token(user: &User, secret: &[u8]) -> (r: Result<String, CustomErrors>)
    ensures
        match r {
            Ok(t) => exists|now: i64| #[trigger] issued_token(user.username@, secret@, now, t@),
            Err(e) => e == CustomErrors::UnexpectedError,
        },
        r is Ok || exists|now: i64| #[trigger] expiry_after(now) is None,
{
    let now = unix_now();
    create_auth_token_at(user, secret, now)
}

/// Judges a token from what its signature check found: `None` where the
/// signature or the form was wrong, else the subject and expiry it holds.
pub fn judge_claims(opened: Option<(Option<String>, Option<i64>)>, now: i64) -> (r: Result<
    String,
    TokenError,
>)
    ensures
        verdict_view(r) == token_verdict(opened_view(opened), now),
{
    match opened {
        None => Err(TokenError::Invalid),
        Some((Some(subject), Some(exp))) => {
            if now < exp {
                Ok(subject)
            } else {
                Err(TokenError::Expired)
            }
        },
        Some(_) => Err(TokenError::Malformed),
    }
}

/// Checks a token at time `now` and returns the username it was issued to.
pub fn verify_auth_token_at(token: &str, secret: &[u8], now: i64) -> (r: Result<
    String,
    TokenError,
>)
    ensures
        verdict_view(r) == token_verdict(hs512_claims(token@, secret@), now),
{
    let opened = match jwt_open(token, secret) {
        Ok(c) => Some(c),
        Err(_) => None,
    };
    judge_claims(opened, now)
}

/// Checks a token against the current time and returns the username it was
/// issued to.
pub fn verify_auth_token(token: &str, secret: &[u8]) -> (r: Result<String, TokenError>)
    ensures
        exists|now: i64| verdict_view(r) == #[trigger] token_verdict(hs512_claims(token@, secret@), now),
{
    let now = unix_now();
    verify_auth_token_at(token, secret, now)
}

} // verus!

verus! {

/// A token whose signature checks and whose expiry has passed is refused as
/// expired, whatever subject it names.
pub proof fn lemma_expired_token_refused(token: Seq<char>, secret: Seq<u8>, now: i64)
    requires
        hs512_claims(token, secret) matches Some((Some(_), Some(exp))) && now >= exp,
    ensures
        token_verdict(hs512_claims(token, secret), now) == Err::<Seq<char>, TokenError>(
            TokenError::Expired,
        ),
{
}

/// A token whose signature checks, that names a subject and whose expiry has
/// not passed resolves to that subject.
pub proof fn lemma_live_token_accepted(token: Seq<char>, secret: Seq<u8>, now: i64)
    requires
        hs512_claims(token, secret) matches Some((Some(_), Some(exp))) && now < exp,
    ensures
        token_verdict(hs512_claims(token, secret), now) == Ok::<Seq<char>, TokenError>(
            hs512_claims(token, secret)->Some_0.0->Some_0,
        ),
{
}

/// A token issued at `issued_at` resolves to its subject at every moment
/// from its issue until three days later, and is refused as expired from
/// then on.
pub proof fn lemma_issued_token_lifetime(
    subject: Seq<char>,
    secret: Seq<u8>,
    issued_at: i64,
    token: Seq<char>,
    now: i64,
)
    requires
        issued_token(subject, secret, issued_at, token),
    ensures
        issued_at <= now < issued_at + TOKEN_LIFETIME_SECS ==> token_verdict(
            hs512_claims(token, secret),
            now,
        ) == Ok::<Seq<char>, TokenError>(subject),
        now >= issued_at + TOKEN_LIFETIME_SECS ==> token_verdict(hs512_claims(token, secret), now)
            == Err::<Seq<char>, TokenError>(TokenError::Expired),
{
}

} // verus!
