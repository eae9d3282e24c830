//! The rules of the self-hosted runtime: what is asked of the database and of the message
//! stream, and what is made of their answers. The caller talks to both.

pub mod access;
pub mod artifacts;
pub mod claim_pass;
pub mod descriptors;
pub mod events;
pub mod naming;
pub mod queue;
pub mod storage;
pub mod worker;
