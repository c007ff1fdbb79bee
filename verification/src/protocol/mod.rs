//! The messages that supervisor and launcher exchange.

pub mod launcher;
pub mod layout;
pub mod net;
pub mod wire;
