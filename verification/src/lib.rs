//! A small levelled logger: a severity threshold in front of one target.
//!
//! A [`Logger`] filters each call by its [`LogLevel`], formats the line and
//! asks its [`Target`] for the write to make. The library computes that write;
//! carrying it out on a stream or a file is left to the caller.

pub mod error;
pub mod log_level;
pub mod logger;
pub mod paint;
pub mod target;

pub use log_level::LogLevel;
pub use logger::{format_line, Logger};
pub use target::{conclude, ConsoleTarget, Delivery, FileTarget, Sink, Target};
