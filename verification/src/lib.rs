//! The deciding half of a screen sharing host: it captures the screen, encodes
//! it as H.264, and saves it or streams it to a viewer over WebRTC.
//!
//! Pixels and frames are computed here. Everything that touches the screen, the
//! codec, the network or a file is decided here, step by step, and performed by
//! the caller.

pub mod capture;
pub mod encoder;
pub mod laws;
pub mod pixels;
pub mod recording;
pub mod report;
pub mod screenshot;
pub mod signaling;
pub mod streaming;
pub mod video;
pub mod webrtc_host;
