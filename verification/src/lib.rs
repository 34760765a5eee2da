//! The surface lifecycle and frame loop of a small real-time graphics host,
//! stated as verified transitions over plain values.
//!
//! The host owns the lifecycle state machine; the graphics context owns the
//! surface configuration and the acquire/submit protocol of a frame. The
//! caller performs the window and GPU work that each returned action names.

pub mod size;
pub mod event;
pub mod format;
pub mod surface;
pub mod host;


