//! Core of a terminal podcast player: feed parsing, episode bookkeeping,
//! the reaction of the application to user and background events, the mpv
//! IPC protocol, and the text shown by the interface.

pub mod text;
pub mod rss;
pub mod download;
pub mod ui;
pub mod player;
pub mod app;
pub mod events;
pub mod config;
pub mod laws;
