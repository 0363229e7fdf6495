use crate::error::HashError;
use argon2::password_hash::rand_core::OsRng;
use argon2::password_hash::SaltString;
use argon2::{Argon2, PasswordHash, PasswordHasher, PasswordVerifier};
use vstd::prelude::*;

verus! {

/// What `bcrypt::verify` reports for a password and a stored hash:
/// `None` where the hash cannot be parsed, else whether the password matches.
pub uninterp spec fn bcrypt_outcome(password: Seq<char>, hash: Seq<char>) -> Option<bool>;

/// What argon2 reports for a password and a stored PHC string: `None` where
/// the string cannot be parsed, else whether the password matches.
pub uninterp spec fn argon2_outcome(password: Seq<char>, hash: Seq<char>) -> Option<bool>;

/// Relies on `bcrypt::hash` (random salt, `bcrypt::DEFAULT_COST`): the hash it returns makes
/// `bcrypt::verify` accept the same password, since verification re-hashes the
/// password with the stored salt and cost and compares.
#[verifier::external_body]
fn hash_password_bcrypt(password: &str) -> (r: Result<String, HashError>)
    ensures
        r is Ok ==> bcrypt_outcome(password@, r->Ok_0@) == Some(true),
        r is Err ==> r->Err_0 == HashError::IntoHashError,
{
    bcrypt::hash(password, bcrypt::DEFAULT_COST).map_err(|_| HashError::IntoHashError)
}

/// Relies on `bcrypt::verify`: its result is a function of the password and the hash.
#[verifier::external_body]
fn verify_password_bcrypt(password: &str, hash: &str) -> (r: Result<bool, HashError>)
    ensures
        match bcrypt_outcome(password@, hash@) {
            Some(b) => r == Ok::<bool, HashError>(b),
            None => r == Err::<bool, HashError>(HashError::FromHashError),
        },
{
    bcrypt::verify(password, hash).map_err(|_| HashError::FromHashError)
}

/// Relies on `SaltString::generate` and `Argon2::hash_password` with default
/// parameters: the PHC string produced parses again and verifies the same password.
#[verifier::external_body]
fn hash_password_argon2(password: &str) -> (r: Result<String, HashError>)
    ensures
        r is Ok ==> argon2_outcome(password@, r->Ok_0@) == Some(true),
        r is Err ==> r->Err_0 == HashError::IntoHashError,
{
    let salt = SaltString::generate(&mut OsRng);
    match Argon2::default().hash_password(password.as_bytes(), &salt) {
        Ok(hash) => Ok(hash.to_string()),
        Err(_) => Err(HashError::IntoHashError),
    }
}

/// Relies on `PasswordHash::new` (parse the PHC string) and
/// `Argon2::verify_password`: the outcome is a function of the two strings.
#[verifier::external_body]
fn verify_password_argon2(password: &str, hash: &str) -> (r: Result<bool, HashError>)
    ensures
        match argon2_outcome(password@, hash@) {
            Some(b) => r == Ok::<bool, HashError>(b),
            None => r == Err::<bool, HashError>(HashError::FromHashError),
        },
{
    match PasswordHash::new(hash) {
        Ok(parsed) => Ok(Argon2::default().verify_password(password.as_bytes(), &parsed).is_ok()),
        Err(_) => Err(HashError::FromHashError),
    }
}

/// The algorithm behind a hash strategy.
#[derive(Debug, Clone, Copy, PartialEq, Eq, Structural)]
pub enum HashAlgorithm {
    Bcrypt,
    Argon2,
}

/// A password hash strategy: a pair of operations, `into_hashed` and `verify`,
/// bound to one algorithm. Each provider is handed its own strategy.
#[derive(Debug, Clone, Copy, PartialEq, Eq, Structural)]
pub struct HashFunction {
    pub algorithm: HashAlgorithm,
}

impl HashFunction {
    /// The strategy's verdict on a password against a stored hash: `None` where
    /// the hash is not one this strategy can read.
    pub open spec fn outcome(self, password: Seq<char>, hash: Seq<char>) -> Option<bool> {
        match self.algorithm {
            HashAlgorithm::Bcrypt => bcrypt_outcome(password, hash),
            HashAlgorithm::Argon2 => argon2_outcome(password, hash),
        }
    }

    /// Whether `password` matches `hash` under this strategy.
    pub open spec fn verifies(self, password: Seq<char>, hash: Seq<char>) -> bool {
        self.outcome(password, hash) == Some(true)
    }

    /// The bcrypt strategy.
    pub fn bcrypt() -> (r: HashFunction)
        ensures
            r.algorithm == HashAlgorithm::Bcrypt,
    {
        HashFunction { algorithm: HashAlgorithm::Bcrypt }
    }

    /// The argon2 strategy.
    pub fn argon2() -> (r: HashFunction)
        ensures
            r.algorithm == HashAlgorithm::Argon2,
    {
        HashFunction { algorithm: HashAlgorithm::Argon2 }
    }

    /// Hashes a password with a fresh random salt. A hash returned always
    /// verifies the password it was made from.
    pub fn into_hashed(&self, password: &str) -> (r: Result<String, HashError>)
        ensures
            r is Ok ==> self.verifies(password@, r->Ok_0@),
            r is Err ==> r->Err_0 == HashError::IntoHashError,
    {
        match self.algorithm {
            HashAlgorithm::Bcrypt => hash_password_bcrypt(password),
            HashAlgorithm::Argon2 => hash_password_argon2(password),
        }
    }

    /// Checks a password against a stored hash. A non-matching password gives
    /// `Ok(false)`; only a hash this strategy cannot read gives an error.
    pub fn verify(&self, password: &str, hash: &str) -> (r: Result<bool, HashError>)
        ensures
            match self.outcome(password@, hash@) {
                Some(b) => r == Ok::<bool, HashError>(b),
                None => r == Err::<bool, HashError>(HashError::FromHashError),
            },
    {
        match self.algorithm {
            HashAlgorithm::Bcrypt => verify_password_bcrypt(password, hash),
            HashAlgorithm::Argon2 => verify_password_argon2(password, hash),
        }
    }
}

} // verus!
