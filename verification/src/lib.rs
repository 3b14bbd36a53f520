//! A verified core for a small internet-radio player: the playback
//! controller's state machine, the media-player supervisor's protocol and
//! restart policy, and the directory client's mirror-failover logic.
//!
//! All I/O (HTTP, the player subprocess, the config file) lives outside this
//! crate; these modules hold the decisions and data transformations, with
//! contracts stating exactly what each one does.

pub mod config;
pub mod controller;
pub mod error;
pub mod json;
pub mod models;
pub mod radio_browser;
pub mod mpv;
pub mod text;

pub use error::DirectoryError;
