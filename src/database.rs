use vstd::prelude::*;
use vstd::string::*;
use crate::data::{StoredUser, strings_view};
use crate::errors::{CustomErrors, RegisterError, register_kind};
use crate::vault::{decode_vault, empty_vault_text, encodes, strings_of_json};

verus! {

/// Creates the users table where it is missing. The store itself keeps
/// usernames unique, so that of two inserts of one username only one succeeds.
pub const CREATE_USERS_TABLE: &'static str = "CREATE TABLE IF NOT EXISTS Users (
        Username CHAR,
        PasswordHash VARCHAR(512),
        Vault LONGTEXT,
        UNIQUE(Username)
      )";

/// Inserts one row: username, password hash and encoded vault.
pub const INSERT_USER: &'static str = "INSERT INTO Users (Username, PasswordHash, Vault) VALUES ($1, $2, $3)";

/// Reads the row of one username: username, password hash and encoded vault.
pub const SELECT_USER_BY_NAME: &'static str = "SELECT Username, PasswordHash, Vault FROM Users WHERE Username = ?";

/// Reads whether a row exists for one username.
pub const SELECT_USERNAME: &'static str = "SELECT Username FROM Users WHERE Username = ?";

/// SQLite's extended result code for a refused UNIQUE constraint.
pub const SQLITE_CONSTRAINT_UNIQUE: &'static str = "2067";

/// A user record as the backing store holds it: the vault is kept encoded.
pub struct UserRow {
    pub username: String,
    pub password_hash: String,
    pub vault: String,
}

/// How an insert into the backing store failed.
pub enum InsertFailure {
    /// The store's uniqueness constraint on the username refused the row.
    UniqueViolation,
    /// Any other failure, with the store's message.
    Other(String),
}

impl UserRow {
    /// The row inserted for a new user: the given username and hash, and the
    /// encoding of the empty vault.
    pub fn new_user(username: &str, password_hash: &str) -> (r: Result<UserRow, CustomErrors>)
        ensures
            match r {
                Ok(row) => {
                    &&& row.username@ == username@
                    &&& row.password_hash@ == password_hash@
                    &&& encodes(Seq::empty(), row.vault@)
                },
                Err(e) => e == CustomErrors::VaultEncodeError,
            },
            r is Ok,
    {
        let vault = empty_vault_text()?;
        Ok(
            UserRow {
                username: username.to_string(),
                password_hash: password_hash.to_string(),
                vault,
            },
        )
    }
}

/// Turns a row read from the store into a user record, decoding its vault.
/// A vault that does not decode is reported, never replaced by an empty one.
pub fn stored_user_from_row(row: UserRow) -> (r: Result<StoredUser, CustomErrors>)
    ensures
        match r {
            Ok(u) => {
                &&& u.username@ == row.username@
                &&& u.password_hash@ == row.password_hash@
                &&& strings_of_json(row.vault@) == Some(u.vault_view())
            },
            Err(e) => e == CustomErrors::VaultDecodeError && strings_of_json(row.vault@) is None,
        },
{
    let vault = decode_vault(row.vault.as_str())?;
    Ok(StoredUser { username: row.username, password_hash: row.password_hash, vault })
}

/// Sorts a failed insert by the store's error code: the code of a refused
/// UNIQUE constraint means the username is taken.
pub fn classify_insert_failure(code: Option<String>, message: String) -> (r: InsertFailure)
    ensures
        match code {
            Some(c) => if c@ == SQLITE_CONSTRAINT_UNIQUE@ {
                r is UniqueViolation
            } else {
                r == InsertFailure::Other(message)
            },
            None => r == InsertFailure::Other(message),
        },
{
    match code {
        Some(c) => {
            if c == String::from_str(SQLITE_CONSTRAINT_UNIQUE) {
                InsertFailure::UniqueViolation
            } else {
                InsertFailure::Other(message)
            }
        },
        None => InsertFailure::Other(message),
    }
}

/// The fault that a failed insert stands for: a refused duplicate username
/// is `DuplicateUser`, anything else a registration fault of the store.
pub open spec fn insert_fault(f: InsertFailure) -> CustomErrors {
    match f {
        InsertFailure::UniqueViolation => CustomErrors::DuplicateUser,
        InsertFailure::Other(m) => CustomErrors::RegisterError(m),
    }
}

/// The fault that a failed insert stands for.
pub fn insert_error(f: InsertFailure) -> (r: CustomErrors)
    ensures
        r == insert_fault(f),
{
    match f {
        InsertFailure::UniqueViolation => CustomErrors::DuplicateUser,
        InsertFailure::Other(m) => CustomErrors::RegisterError(m),
    }
}

/// The outcome of a registration, from the outcome of its steps (hashing,
/// then inserting the row).
pub fn registration_outcome(steps: Result<(), CustomErrors>) -> (r: Result<(), RegisterError>)
    ensures
        match steps {
            Ok(()) => r is Ok,
            Err(e) => r == Err::<(), RegisterError>(register_kind(e)),
        },
{
    match steps {
        Ok(()) => Ok(()),
        Err(e) => Err(e.register_error()),
    }
}

} // verus!

verus! {

/// A registration whose insert failed ends in `DuplicateUser` exactly when
/// the store's uniqueness constraint refused the username; any other failed
/// insert is a storage fault.
pub proof fn lemma_refused_insert_is_duplicate_user(f: InsertFailure)
    ensures
        (register_kind(insert_fault(f)) == RegisterError::DuplicateUser) == (
        f is UniqueViolation),
        f is Other ==> register_kind(insert_fault(f)) == RegisterError::StorageUnavailable,
{
}

} // verus!
