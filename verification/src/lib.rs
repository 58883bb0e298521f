//! A personal time tracker: a store of tasks with at most one of them
//! open, the session that turns lines of input into changes of that
//! store, and the export of the store as comma-separated values.

pub mod config;
pub mod export;
pub mod laws;
pub mod notices;
pub mod session;
pub mod task;
pub mod tasks;
pub mod text;
pub mod timestamp;

pub use crate::config::ConfigXml;
pub use crate::session::Session;
pub use crate::task::Task;
pub use crate::tasks::Tasks;
pub use crate::timestamp::Timestamp;
