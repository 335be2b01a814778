//! Whispa: dictation at the press of a hotkey.
//!
//! A recording becomes an audio file ([`audio`], [`wav`]), which a provider of the user's choice
//! ([`provider`]) transcribes ([`transcription`]); the text goes to the clipboard. [`session`] is the
//! course of a dictation, with what is kept when one fails, and [`session_laws`] is what holds of
//! every dictation. [`failure`] says what the user is told when something goes wrong, [`hud`] what the
//! floating indicator shows, and [`desktop`] how the application meets the desktop.

pub mod audio;
pub mod desktop;
pub mod failure;
pub mod hud;
pub mod json;
pub mod provider;
pub mod session;
pub mod session_laws;
pub mod text;
pub mod transcription;
pub mod wav;
