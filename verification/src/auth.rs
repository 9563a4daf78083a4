//! Portal login protocol: page analysis, response interpretation and the
//! credential rules of the login service.

pub mod portal;
pub mod protocol;
pub mod outcome;
pub mod failure_tracker;
pub mod service;
pub mod session;
