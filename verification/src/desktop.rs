//! The desktop client's own rules: accounts, the lightweight mode and the
//! web-view recovery limit, and what a logout leaves behind.

pub mod accounts;
pub mod lightweight;
pub mod recovery;
pub mod update;
pub mod auto_login;
pub mod tray;
pub mod auto_exit;
pub mod heartbeat;
pub mod logout;
pub mod external;
pub mod install;
