//! Listening to a user and finding out what they want.
//!
//! Audio is captured from the live device, or replayed from a file, and
//! streamed to a transcription service; the events that the service sends
//! back are folded into one transcription. The text is then put before a
//! model that says what the user intends.
//!
//! The library decides and states what it decides: what is asked of the
//! audio server, what each callback and each frame means, what is sent and
//! when a session ends. The caller opens the devices, sockets and threads
//! and does what was decided.

pub mod actions;
pub mod ai_providers;
pub mod app_composite;
pub mod config;
pub mod json;
pub mod logger;
pub mod session;
pub mod speech;
pub mod text;
