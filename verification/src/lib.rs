//! Core logic of a hands-free dictation tool: a hotkey press starts an audio
//! capture, the release (or a second tap) stops it, the captured audio is
//! transcribed, and the text is pasted into the frontmost application while
//! the previous clipboard contents are preserved.
//!
//! This crate holds the verified part: the debounce filter for hotkey events,
//! the coordinator state machine that owns the session `Stage`, the capture
//! session manager with its exclusive slot and bounded finalization polling,
//! the clipboard-preserving paste sequence, and the small pure helpers around
//! them (hotkey parsing, provider resolution, audio sniffing, encodings).
//! The platform glue (window system, native recorder, HTTP, database) lives
//! in the surrounding application crate and only hands plain values in and
//! out.

pub mod capture;
pub mod codec;
pub mod coordinator;
pub mod debounce;
pub mod envfile;
pub mod errors;
pub mod hotkey;
pub mod paste;
pub mod pipeline;
pub mod records;
pub mod textutil;
pub mod transcription;
pub mod window;
