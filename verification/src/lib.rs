//! Verified core of a live-transcription terminal application.
//!
//! The application captures the microphone, streams the audio to a
//! transcription provider, and shows a speaker-attributed transcript that can
//! be navigated and edited while recording goes on. This crate holds its
//! logic as plain values and functions with contracts; devices, the network,
//! the terminal and the settings file belong to the caller.
//!
//! - [`transcript`], [`transcript_model`], [`transcript_display`]: the bounded
//!   transcript buffer with focus, scrolling and inline editing.
//! - [`transcribers`]: the grouping of provider responses into results by
//!   speaker, and the parameters of the provider.
//! - [`session`], [`capture`], [`orchestrator`]: the lifecycles of the
//!   transcription session and of the capture worker, and the main loop, as
//!   functions from events to commands.
//! - [`audio`]: the choice of a device and the format of captured audio.
//! - [`config`], [`state`]: the settings and the state of the application.
//! - [`tui`], [`widgets`], [`keys`], [`event_handler`]: the interface and what
//!   keys do to it.
//! - [`speakers`], [`text`]: speaker names and string utilities.

pub mod audio;
pub mod capture;
pub mod config;
pub mod event_handler;
pub mod keys;
pub mod orchestrator;
pub mod session;
pub mod speakers;
pub mod state;
pub mod text;
pub mod transcribers;
pub mod transcript;
pub mod transcript_display;
pub mod transcript_model;
pub mod tui;
pub mod widgets;
