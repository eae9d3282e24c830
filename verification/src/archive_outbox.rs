//! The durable, credential-free outbox of local evidence.
//!
//! It holds only the local queue and the provider-neutral contract of the transport:
//! no client, no access token, no cloud endpoint and no broker credential.

pub mod delivery;
pub mod enqueue_pass;
pub mod envelope;
pub mod paging;
pub mod state;
pub mod store;
pub mod sync;
pub mod sync_pass;
