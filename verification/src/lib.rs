//! Resumable installation and update orchestration for a managed
//! application: a persisted pipeline of stages that brings a machine from
//! nothing installed to the application running, and that can be interrupted
//! and started again at any point.
//!
//! The library decides; it never touches the disk, the network or another
//! process. Whatever it needs to know of the machine is handed to it as plain
//! values, and whatever is to be done comes back as a description: a
//! directive, a step of a protocol, a command to run, a file to write.
//!
//! - `state_machine` and `pipeline`: the stages, their order, the state file,
//!   and the driving protocol.
//! - `stages`: what each stage does, as far as it is a decision.
//! - `updater`: self-update with checksum verification and rollback.
//! - `dependencies`: the audit of the required toolchains and their
//!   installation.
//! - `sync`: the manifest, the incremental sync and the full archive.
//! - `orchestrator`: the build cache gate and the build and launch commands.
//! - `config`, `cli`, `failure`: settings, command line, and the kinds of
//!   failure.
//! - `paths`, `commands`, `checksum`, `json`, `text`, `clock`: what the rest
//!   is built on.

pub mod checksum;
pub mod cli;
pub mod clock;
pub mod commands;
pub mod config;
pub mod dependencies;
pub mod failure;
pub mod json;
pub mod orchestrator;
pub mod paths;
pub mod pipeline;
pub mod stages;
pub mod state_machine;
pub mod sync;
pub mod text;
pub mod updater;
