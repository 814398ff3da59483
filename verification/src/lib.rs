//! QuickWhisper: push-to-talk voice transcription for GNOME/Wayland.
//!
//! This crate holds the daemon's decisions and rules, each with a proved
//! contract: configuration keys and their validation, hotkey name
//! resolution and key-event filtering, the push-to-talk state machine,
//! model file naming and lookup, clipboard fallback and overlay state
//! tracking. Audio capture, whisper inference, the SQLite history, D-Bus,
//! notifications and the command line live in the program around it.

pub mod text;
pub mod hotkey;
pub mod config;
pub mod models;
pub mod daemon;
pub mod clipboard;
pub mod overlay;
pub mod audio;
pub mod transcribe;
pub mod history;
