//! What stands between the runtime and its surroundings.

pub mod self_hosted;
pub mod studio_identity;
