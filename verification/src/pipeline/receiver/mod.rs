//! Receiver-side pipeline: reorder, decode bookkeeping, A/V scheduling and
//! the coordinator that owns the receiver's clock, health and state.

pub mod coordinator;
pub mod decode_stage;
pub mod reorder_stage;
pub mod sync_stage;
