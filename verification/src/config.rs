//! Desktop configuration: model, validation, and the pure time-based rules
//! that act on it.

pub mod model;
pub mod validate;
pub mod night_switch;
pub mod outbound_switch;
pub mod schedule;
pub mod transfer;
