//! Transfer tasks: how a running task is set up, throttled, observed and
//! judged.

pub mod bundle;
pub mod client;
pub mod download;
pub mod operator;
pub mod request_task;
pub mod speed_limiter;
pub mod upload;
