//! Watches a directory tree and, for each changed file whose extension has a
//! rule, decides which commands to run on it and in what order.
pub mod clock;
pub mod command;
pub mod config;
pub mod debounce;
pub mod dispatch;
pub mod path;
pub mod sentinel;
pub mod text;
pub mod tool;
pub mod watch;
