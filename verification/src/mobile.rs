//! The phone client's own rules: accounts, settings, the identity gate, the
//! background monitor, quality back-off, self-service checks and updates.

pub mod url_host;
pub mod settings;
pub mod accounts;
pub mod identity;
pub mod self_service;
pub mod monitor;
pub mod update;
pub mod quality;
pub mod history;
pub mod battery;
pub mod campus;
pub mod device;
