//! The uniform contract that every credential scheme implements.

pub mod inner_email_provider;

use crate::error::AuthError;
use crate::repository::user_auth_pair::UserAuthPairData;
use vstd::prelude::*;

verus! {

/// What a verification message carries: the code to prove, and how to
/// present the service and the account to the recipient.
#[derive(Debug, Clone)]
pub struct VerifyInfo {
    pub verify_code: String,
    pub service_name: String,
    pub user_account_description: String,
}

/// A credential scheme, parameterised by the shape of the account a client
/// presents. Each scheme keeps its own state; `inv` is its well-formedness.
pub trait AuthProvider<Account>: Sized {
    spec fn inv(&self) -> bool;

    /// The identity link of a fully matching, existing credential; `None` where
    /// the account does not exist or the credential does not match.
    fn try_login(&self, account: &Account) -> (r: Result<Option<UserAuthPairData>, AuthError>)
        requires
            self.inv(),
    ;

    /// Creates the credential record and its identity link for `user_id`.
    fn try_register(&mut self, account: &Account, user_id: u128) -> (r: Result<
        UserAuthPairData,
        AuthError,
    >)
        requires
            old(self).inv(),
        ensures
            final(self).inv(),
    ;

    /// Issues a new verification code for the account and hands the message
    /// carrying it to delivery.
    fn send_verify(&mut self, account: &Account, verify_info: &VerifyInfo) -> (r: Result<
        (),
        AuthError,
    >)
        requires
            old(self).inv(),
        ensures
            final(self).inv(),
    ;

    /// Whether `verify_code` is the account's active verification code.
    fn check_verify_response(&self, account: &Account, verify_code: &str) -> (r: Result<
        bool,
        AuthError,
    >)
        requires
            self.inv(),
    ;
}

} // verus!
