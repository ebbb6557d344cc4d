//! Monitoring of long-running background tasks.
//!
//! Tasks are run over and over again, or run by themselves, and report how they fare. This crate
//! holds what is decided on the way:
//!
//! - [`config`]: delays between runs, and retries after failures;
//! - [`periodic`]: what the end of a run does to the status of a task, whether it is worth an
//!   alert, and what follows;
//! - [`status`]: the status of a task, and what is shown of it at a glance;
//! - [`page`]: the status page, and how it is written out;
//! - [`slack`]: the messages that tell of alerts;
//! - [`registry`]: the tasks that are watched;
//! - [`laws`]: what holds of all of it.
//!
//! Running tasks, serving the page and sending messages are up to the application.

pub mod clock;
pub mod config;
pub mod context;
pub mod convert;
pub mod json;
pub mod label;
pub mod label_map;
pub mod laws;
pub mod output;
pub mod page;
pub mod periodic;
pub mod registry;
pub mod slack;
pub mod status;
pub mod text;

pub use config::{retry_limit_reached, validate_delay};
pub use context::WatcherAppContext;
pub use label::TaskLabel;
pub use output::WatchedTaskOutput;
pub use periodic::Alert;
pub use slack::NotifierConfig;
pub use status::{ShortStatus, TaskCounts, TaskError, TaskResult, TaskResultValue, TaskStatus};
