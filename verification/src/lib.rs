//! Logging for the Aralez reverse proxy: logger configuration, the
//! access-log record and its rendering, the access-log level switch, and
//! the metric labels derived from a finished request.

pub mod access_log;
pub mod custom_access_log;
pub mod custom_logger;
pub mod interface;
pub mod ip;
pub mod logger;
pub mod logging;
pub mod metrics;
pub mod outside;
pub mod text;
