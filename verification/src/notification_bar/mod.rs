//! Notification bar: what the service shows about running and finished
//! tasks and groups of tasks.

pub mod notify_flow;
pub mod progress_size;
pub mod typology;
pub mod database;
pub mod publish;
pub mod task_handle;
pub mod notification_config;
