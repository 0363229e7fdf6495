//! The two record types of the authentication core and their persistence
//! operations on an [`AuthDatabase`](crate::database::AuthDatabase).

pub mod inner_email_provider;
pub mod user_auth_pair;
