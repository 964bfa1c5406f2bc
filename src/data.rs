use vstd::prelude::*;

verus! {

/// A user record as held by the credential store.
pub struct StoredUser {
    pub username: String,
    pub password_hash: String,
    pub vault: Vec<String>,
}

/// Credentials sent by a client to register or log in.
pub struct User {
    pub username: String,
    pub password: String,
}

/// The body of a reply to a registration or login request.
pub struct Response {
    pub id: String,
    pub message: String,
}

/// What a session token carries: the identity and the moment (seconds since
/// the Unix epoch) from which it is no longer accepted.
pub struct Claims {
    pub username: String,
    pub exp: i64,
}

/// The sequence of strings that a vector of strings holds.
pub open spec fn strings_view(v: Seq<String>) -> Seq<Seq<char>> {
    v.map_values(|s: String| s@)
}

impl StoredUser {
    pub open spec fn vault_view(&self) -> Seq<Seq<char>> {
        strings_view(self.vault@)
    }
}

} // verus!
