//! Interactive navigation core for a terminal VPN front-end: view and input
//! modes, per-view selection lists with live case-insensitive filtering, a
//! two-keystroke chord, and the state transitions driven by key events and by
//! the results of an external provider command.

pub mod app;
pub mod cli;
pub mod config;
pub mod data;
pub mod error;
pub mod gateway;
pub mod laws;
pub mod search;
