//! Session authentication and atomic ledger transfers for an account service.

pub mod amount;
pub mod auth;
pub mod credentials;
pub mod error;
pub mod hasher;
pub mod ids;
pub mod ledger;
pub mod password;
pub mod records;
pub mod token;
pub mod transfer;
pub mod user;
