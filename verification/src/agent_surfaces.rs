//! What agents are shown of positions and of the candidates of a selection. Quantities
//! and prices stay with the caller: it hands in what it computed of them, and is told
//! what to compute.

pub mod lifecycle;
pub mod notebook;
pub mod position;
pub mod selector;
