//! Capture and replay of framed radio messages.
//!
//! The crate has three parts: a pure decoder that normalizes wire frames into
//! a small set of application message types with a typed error taxonomy, a
//! recording log that frames raw payloads into size-bounded rotating segments,
//! and a replay reader that turns recorded segment bytes back into the exact
//! ordered payload sequence, distinguishing a clean end from a truncated
//! capture.

pub mod bytes;
pub mod playback;
pub mod radio_message;
pub mod recording_stream;
pub mod stats;
pub mod wire;
