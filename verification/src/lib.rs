//! Verified core of the campus network login client: configuration
//! validation, portal page analysis, login/logout response interpretation,
//! night-time operator switching, scheduling and the background monitor's
//! decision rules.

pub mod text;
pub mod clock;
pub mod net;
pub mod pattern;
pub mod render;
pub mod config;
pub mod legacy_config;
pub mod auth;
pub mod mobile;
pub mod desktop;
pub mod helper;
pub mod checksum;
