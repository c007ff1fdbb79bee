//! The supervisor's manager: its main loop, the services it runs, its
//! process lock and its settings.

pub mod config;
pub mod gateway;
pub mod input;
pub mod lock;
pub mod run;
pub mod services;
pub mod states;
pub mod update;
