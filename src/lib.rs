//! Multi-provider identity authentication: password hash strategies, identity
//! links, email credential records with their verification-code workflow, and
//! the email/password provider that ties them together.



pub mod auth_provider;
pub mod database;
pub mod error;
pub mod password_hash;
pub mod repository;

