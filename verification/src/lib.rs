//! The verified core of a push-to-talk dictation system: hotkey
//! recognition, the server's configuration, worker, admin requests and
//! WebSocket sessions, and the client daemon's connection, configuration
//! file, status, overlay and tray decisions.

pub mod text;
pub mod hotkey;
pub mod keys;
pub mod config;
pub mod worker;
pub mod admin;
pub mod stream;
pub mod network;
pub mod client_config;
pub mod daemon;
pub mod tray;
