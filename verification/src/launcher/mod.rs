//! The launcher's side: the processes it has spawned, those it is shutting
//! down, and what it does on each tick.

pub mod descendants;
pub mod handlers;
pub mod output;
pub mod server;
pub mod service;
pub mod table;
