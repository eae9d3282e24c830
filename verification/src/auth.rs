//! Local identity: what the local owner may do, which sessions are accepted and what
//! the account surfaces answer.

pub mod account;
pub mod authz;
pub mod session;
