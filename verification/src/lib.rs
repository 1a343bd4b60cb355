//! Core of a small local audio player: a playlist with index-stable editing,
//! a playback-engine state machine that owns the current session and the
//! volume/rate knobs, and a waveform analyzer that folds decoded packets into
//! a coarse visual envelope.
//!
//! Device output, codec demuxing and the user interface are external
//! collaborators; this crate holds the decisions and the shared state they
//! act on, with contracts on every operation.

pub mod audio_player;
pub mod config;
pub mod messages;
pub mod sound_data;
pub mod track;
