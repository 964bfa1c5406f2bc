use vstd::prelude::*;

verus! {

/// Faults met while serving a request. Outside errors are carried as their
/// message text.
#[derive(Debug, Clone)]
pub enum CustomErrors {
    QueryError(String),
    FileError(String),
    DBInitError(String),
    RowDecodeError(String),
    VaultDecodeError,
    VaultEncodeError,
    RegisterError(String),
    DuplicateUser,
    JWTEncodingError,
    UnexpectedError,
}

/// Why a registration did not take place.
#[derive(PartialEq, Eq, Structural, Debug, Clone, Copy)]
pub enum RegisterError {
    DuplicateUser,
    StorageUnavailable,
    Internal,
}

/// Why a login did not produce a token.
#[derive(PartialEq, Eq, Structural, Debug, Clone, Copy)]
pub enum LoginError {
    NoSuchUser,
    BadCredentials,
    StorageUnavailable,
    Internal,
}

/// Why a token was not accepted.
#[derive(PartialEq, Eq, Structural, Debug, Clone, Copy)]
pub enum TokenError {
    Expired,
    Invalid,
    Malformed,
}

/// The storage faults: those that come from the backing store itself.
pub open spec fn is_storage_fault(e: CustomErrors) -> bool {
    match e {
        CustomErrors::QueryError(_) | CustomErrors::FileError(_) | CustomErrors::DBInitError(_)
        | CustomErrors::RegisterError(_) => true,
        _ => false,
    }
}

/// The outcome kind of a failed registration.
pub open spec fn register_kind(e: CustomErrors) -> RegisterError {
    match e {
        CustomErrors::DuplicateUser => RegisterError::DuplicateUser,
        _ => if is_storage_fault(e) {
            RegisterError::StorageUnavailable
        } else {
            RegisterError::Internal
        },
    }
}

/// The outcome kind of a failed lookup during login.
pub open spec fn login_kind(e: CustomErrors) -> LoginError {
    if is_storage_fault(e) {
        LoginError::StorageUnavailable
    } else {
        LoginError::Internal
    }
}

impl CustomErrors {
    /// Sorts a fault met while registering into the registration outcomes.
    pub fn register_error(&self) -> (r: RegisterError)
        ensures
            r == register_kind(*self),
    {
        match self {
            CustomErrors::DuplicateUser => RegisterError::DuplicateUser,
            CustomErrors::QueryError(_) | CustomErrors::FileError(_)
            | CustomErrors::DBInitError(_) | CustomErrors::RegisterError(_) => {
                RegisterError::StorageUnavailable
            },
            _ => RegisterError::Internal,
        }
    }

    /// Sorts a fault met while looking a user up into the login outcomes.
    pub fn login_error(&self) -> (r: LoginError)
        ensures
            r == login_kind(*self),
    {
        match self {
            CustomErrors::QueryError(_) | CustomErrors::FileError(_)
            | CustomErrors::DBInitError(_) | CustomErrors::RegisterError(_) => {
                LoginError::StorageUnavailable
            },
            _ => LoginError::Internal,
        }
    }
}

} // verus!
