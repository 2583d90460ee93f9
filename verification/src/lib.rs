//! Verified core of a terminal Spotify client: text formatting, key bindings,
//! request building, OAuth callback parsing and the state machine of the UI.

pub mod text;
pub mod url;
pub mod spotify;
pub mod events;
pub mod app;
pub mod config;
pub mod auth;
pub mod callback;
pub mod ui;
pub mod laws;
