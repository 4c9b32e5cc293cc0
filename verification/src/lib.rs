//! Core decisions of a remote-desktop engine: session negotiation, the
//! capture-to-encoder pipeline, encoder configuration and audio playback.
//!
//! Native codecs, screen capture and the audio device are driven by the
//! caller; this crate decides what they have to do next and checks what
//! they report.

pub mod audio;
pub mod channels;
pub mod encoder_config;
pub mod error;
pub mod mouse_controller;
pub mod negotiation;
pub mod pipeline;
pub mod signaling;
