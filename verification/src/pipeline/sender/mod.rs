//! Sender-side pipeline: encode framing and the coordinator's decisions.

pub mod coordinator;
pub mod encode_stage;
