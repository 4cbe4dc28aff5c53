//! Decision logic of a per-host application supervisor: the single-slot command
//! channel, the build and update pipelines, the secure-storage mount state
//! machine, the reboot scheduler and the supervisor's start and stop order.
//!
//! Every manager is a state machine that is told what the last requested
//! action came to and answers with the next action. Nothing here touches the
//! file system, the network or a process: the caller performs the actions.

pub mod api;
pub mod auth;
pub mod builder;
pub mod builder_store;
pub mod channel;
pub mod cli;
pub mod client;
pub mod config;
pub mod info;
pub mod model;
pub mod mount;
pub mod operation;
pub mod reboot;
pub mod server;
pub mod step;
pub mod text;
pub mod update;
pub mod update_store;
