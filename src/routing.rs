use vstd::prelude::*;
use vstd::string::*;
use crate::crypto::{argon2_accepts, check_hash, create_auth_token_at, expiry_after, issued_token, unix_now};
use crate::data::{Response, StoredUser, User};
use crate::errors::{CustomErrors, LoginError, RegisterError, login_kind};

verus! {

/// A reply to a request: the HTTP status code and the body.
pub struct Reply {
    pub status: u16,
    pub body: Response,
}

/// A reply that carries only a message, given for rejected requests.
pub struct ErrorReply {
    pub status: u16,
    pub message: String,
}

/// Why a request was rejected before or while it was handled.
pub enum RejectionKind {
    /// No route matched the path.
    NotFound,
    /// The body could not be read as the expected JSON.
    InvalidBody,
    /// A fault of this library's own.
    Application(CustomErrors),
    /// The route exists but not for this method.
    MethodNotAllowed,
    /// Anything else.
    Unhandled,
}

impl Reply {
    pub open spec fn says(&self, status: u16, id: Seq<char>, message: Seq<char>) -> bool {
        self.status == status && self.body.id@ == id && self.body.message@ == message
    }
}

fn reply(status: u16, id: &str, message: &str) -> (r: Reply)
    ensures
        r.says(status, id@, message@),
{
    Reply { status, body: Response { id: String::from_str(id), message: String::from_str(message) } }
}

/// The reply to a registration request, from its outcome.
pub fn registration_reply(outcome: &Result<(), RegisterError>) -> (r: Reply)
    ensures
        match outcome {
            Ok(()) => r.says(200, "RegistrationSuccess"@, "Successfully registered."@),
            Err(_) => r.says(400, "RegistrationError"@, "Error registering user."@),
        },
{
    match outcome {
        Ok(()) => reply(200, "RegistrationSuccess", "Successfully registered."),
        Err(_) => reply(400, "RegistrationError", "Error registering user."),
    }
}

/// The outcome of a login at time `now`, given the record found under the
/// requested username. The password is checked against the stored hash;
/// a token is issued to the username only where it matches.
pub fn login_outcome_at(body: &User, found: Option<StoredUser>, secret: &[u8], now: i64) -> (r: Result<
    String,
    LoginError,
>)
    ensures
        match found {
            None => r == Err::<String, LoginError>(LoginError::NoSuchUser),
            Some(u) => if !argon2_accepts(u.password_hash@, body.password@) {
                r == Err::<String, LoginError>(LoginError::BadCredentials)
            } else {
                match r {
                    Ok(t) => issued_token(body.username@, secret@, now, t@),
                    Err(e) => e == LoginError::Internal && expiry_after(now) is None,
                }
            },
        },
{
    match found {
        None => Err(LoginError::NoSuchUser),
        Some(u) => {
            if !check_hash(&body.password, &u.password_hash) {
                Err(LoginError::BadCredentials)
            } else {
                match create_auth_token_at(body, secret, now) {
                    Ok(t) => Ok(t),
                    Err(_) => Err(LoginError::Internal),
                }
            }
        },
    }
}

/// The outcome of a login now, given the result of looking the requested
/// username up in the store.
pub fn login_outcome(body: &User, found: Result<Option<StoredUser>, CustomErrors>, secret: &[u8]) -> (r:
    Result<String, LoginError>)
    ensures
        match found {
            Err(e) => r == Err::<String, LoginError>(login_kind(e)),
            Ok(None) => r == Err::<String, LoginError>(LoginError::NoSuchUser),
            Ok(Some(u)) => if !argon2_accepts(u.password_hash@, body.password@) {
                r == Err::<String, LoginError>(LoginError::BadCredentials)
            } else {
                match r {
                    Ok(t) => exists|now: i64| #[trigger] issued_token(body.username@, secret@, now, t@),
                    Err(e) => e == LoginError::Internal && exists|now: i64| #[trigger] expiry_after(now) is None,
                }
            },
        },
{
    match found {
        Err(e) => Err(e.login_error()),
        Ok(f) => {
            let now = unix_now();
            login_outcome_at(body, f, secret, now)
        },
    }
}

/// The reply to a login request, from its outcome: the token on success.
pub fn login_reply(outcome: Result<String, LoginError>) -> (r: Reply)
    ensures
        match outcome {
            Ok(t) => r.status == 200 && r.body.id@ == "LoginSuccess"@ && r.body.message@ == t@,
            Err(LoginError::BadCredentials) => r.says(200, "LoginError"@, "Unable to login"@),
            Err(LoginError::NoSuchUser) => r.says(
                400,
                "NoSuchUser"@,
                "The user specified does not exist."@,
            ),
            Err(LoginError::StorageUnavailable) => r.says(
                400,
                "LoginError"@,
                "Could not execute request"@,
            ),
            Err(LoginError::Internal) => r.says(500, "LoginError"@, "Internal Server Error"@),
        },
{
    match outcome {
        Ok(t) => Reply {
            status: 200,
            body: Response { id: String::from_str("LoginSuccess"), message: t },
        },
        Err(LoginError::BadCredentials) => reply(200, "LoginError", "Unable to login"),
        Err(LoginError::NoSuchUser) => reply(
            400,
            "NoSuchUser",
            "The user specified does not exist.",
        ),
        Err(LoginError::StorageUnavailable) => reply(
            400,
            "LoginError",
            "Could not execute request",
        ),
        Err(LoginError::Internal) => reply(500, "LoginError", "Internal Server Error"),
    }
}

/// The status and message given for a rejected request. A query fault is
/// the client's request that the store could not run; every other fault of
/// the library is an internal error.
pub open spec fn rejection_spec(kind: RejectionKind) -> (u16, Seq<char>) {
    match kind {
        RejectionKind::NotFound => (404, "Not Found"@),
        RejectionKind::InvalidBody => (400, "Invalid Body"@),
        RejectionKind::Application(CustomErrors::QueryError(_)) => (
            400,
            "Could not execute request"@,
        ),
        RejectionKind::Application(_) => (500, "Internal Server Error"@),
        RejectionKind::MethodNotAllowed => (405, "Method Not Allowed"@),
        RejectionKind::Unhandled => (500, "Internal Server Error"@),
    }
}

fn error_reply(status: u16, message: &str) -> (r: ErrorReply)
    ensures
        r.status == status && r.message@ == message@,
{
    ErrorReply { status, message: String::from_str(message) }
}

/// The reply given for a rejected request.
pub fn handle_rejection(kind: &RejectionKind) -> (r: ErrorReply)
    ensures
        (r.status, r.message@) == rejection_spec(*kind),
{
    match kind {
        RejectionKind::NotFound => error_reply(404, "Not Found"),
        RejectionKind::InvalidBody => error_reply(400, "Invalid Body"),
        RejectionKind::Application(CustomErrors::QueryError(_)) => error_reply(
            400,
            "Could not execute request",
        ),
        RejectionKind::Application(_) => error_reply(500, "Internal Server Error"),
        RejectionKind::MethodNotAllowed => error_reply(405, "Method Not Allowed"),
        RejectionKind::Unhandled => error_reply(500, "Internal Server Error"),
    }
}

} // verus!
