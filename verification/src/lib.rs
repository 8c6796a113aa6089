//! An in-memory store of todo records and the messages that drive it.

pub mod laws;
pub mod message;
pub mod model;
pub mod record;
pub mod respond;
pub mod store;
