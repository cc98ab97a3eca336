//! Core of a push-to-talk dictation helper.
//!
//! One global key combination (Control + Space) is claimed with the OS; its
//! press and release edges become the `ptt-start` and `ptt-stop` signals that
//! an embedding UI layer listens for, and one operation types a transcript
//! string into whatever application holds OS focus, through synthetic
//! keystrokes.

pub mod bridge;
pub mod hotkey;
pub mod inject;
pub mod registry;
