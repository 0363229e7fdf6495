use vstd::prelude::*;

verus! {

/// A persistence failure of the credential store.
#[derive(Debug, Clone, Copy, PartialEq, Eq, Structural)]
pub enum DbErr {
    /// An insert would give a second record the same email address.
    DuplicateEmail,
    /// An insert or update would give a second record the same opaque key.
    DuplicateKey,
    /// The record to update or delete is not stored.
    RecordNotFound,
    /// No identifier is left for a new identity link.
    IdExhausted,
}

/// Every failure that the authentication core reports to its callers.
#[derive(Debug, PartialEq, Eq)]
pub enum AuthError {
    ConnectionError(String),
    DatabaseError(DbErr),
    ConflictingAccount,
    VerifySendError(String),
    VerifyAlgorithmError(String),
}

/// A failure of a password hash strategy.
#[derive(Debug, Clone, Copy, PartialEq, Eq, Structural)]
pub enum HashError {
    /// The password could not be hashed.
    IntoHashError,
    /// The stored hash could not be read by the strategy.
    FromHashError,
}

/// Whether `e` is the algorithm error that `h` turns into.
pub open spec fn is_algorithm_error_of(e: AuthError, h: HashError) -> bool {
    &&& e is VerifyAlgorithmError
    &&& h == HashError::IntoHashError ==> e->VerifyAlgorithmError_0@ == "Failed to hash password"@
    &&& h == HashError::FromHashError ==> e->VerifyAlgorithmError_0@
        == "Failed to verify password because of hash algorithm error."@
}

impl HashError {
    /// The authentication failure that this hash failure is reported as.
    pub fn to_auth_error(self) -> (r: AuthError)
        ensures
            is_algorithm_error_of(r, self),
    {
        match self {
            HashError::IntoHashError => {
                let msg = "Failed to hash password".to_owned();
                AuthError::VerifyAlgorithmError(msg)
            },
            HashError::FromHashError => {
                let msg = "Failed to verify password because of hash algorithm error.".to_owned();
                AuthError::VerifyAlgorithmError(msg)
            },
        }
    }
}

} // verus!
