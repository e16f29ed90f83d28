//! Castify's media pipeline and GUI model: timestamps, the media clock,
//! pipeline health counters, the pipeline state machine, the receiver's
//! jitter buffer and A/V scheduler, H.264 keyframe detection, and the state
//! of the application's windows.

pub mod gui;
pub mod pipeline;
