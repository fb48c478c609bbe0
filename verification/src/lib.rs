//! Supervisor engine of a sandboxed process runner.
//!
//! The engine decides, from sampled resource counters and control messages,
//! when a supervised process group has to be terminated and what the final
//! report says. Everything that touches the operating system is left to the
//! caller: the engine takes plain samples and hands back plain decisions.
//!
//! - [`limits`], [`counters`], [`time`]: the data the engine works on.
//! - [`limit_checker`]: the accounting of time and the rules on limits.
//! - [`message`], [`monitor`], [`program`]: the supervisor of one process.
//! - [`error`]: the error type, and the check of native return values.
//! - [`env_block`], [`split`]: native environment blocks.
//! - [`opts`], [`help`]: the attributes of a command-line options
//!   structure, and the help text written from them.

pub mod counters;
pub mod env_block;
pub mod error;
pub mod help;
pub mod limit_checker;
pub mod limits;
pub mod message;
pub mod monitor;
pub mod opts;
pub mod program;
pub mod split;
pub mod time;
