//! Verified core of the upload/download request service.
//!
//! The library holds the decisions of the service: task configuration and its
//! conversions, task states and progress, the retry, error and range
//! decisions of downloads and uploads, speed limiting, notification contents
//! and the bookkeeping of notification groups, the formatting of sizes and
//! progress, the registries of client processes and run-count listeners,
//! permission mapping, the stored text forms of maps and lists, the
//! messages between processes, and the requests of the IPC front end, read
//! from one message and answered in another. Everything that talks to the
//! system (the IPC transport, databases, the task manager, the
//! notification centre, the network) stays outside: it hands plain values
//! in, or is reached through functions that the caller hands in.

pub mod active_counter;
pub mod client_manager;
pub mod command;
pub mod config;
pub mod construct;
pub mod control;
pub mod dump;
pub mod error;
pub mod get_task;
pub mod groups;
pub mod info;
pub mod interface;
pub mod lookup;
pub mod notification_bar;
pub mod parcel;
pub mod permission;
pub mod reason;
pub mod run_count;
pub mod search;
pub mod subscribe;
pub mod sys_event;
pub mod task;
pub mod task_count;
pub mod task_id_generator;
pub mod text;
pub mod utils;
