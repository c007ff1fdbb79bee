//! Core of a service supervisor: reconciliation of declared against running
//! services, the update state machine of a service group, the process handle
//! of a supervised service and the launcher's bookkeeping, each with its
//! contract stated over a mathematical model and proved.

pub mod cli;
pub mod clock;
pub mod composite;
pub mod error;
pub mod exec;
pub mod expansion;
pub mod gossip;
pub mod ident;
pub mod install;
pub mod launcher;
pub mod log_pipe;
pub mod manager;
pub mod numbers;
pub mod perm;
pub mod pkg;
pub mod protocol;
pub mod reconcile;
pub mod signal;
pub mod spec;
pub mod spec_dir;
pub mod spec_file;
pub mod spec_path;
pub mod supervisor;
pub mod svc_dir;
pub mod templating;
pub mod text;
pub mod updater;
pub mod vecs;
pub mod watcher;
pub mod worker;
