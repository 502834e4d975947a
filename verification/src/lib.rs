//! Launching a program as a child process with `vfork`, capturing its standard
//! output through a pipe, and observing how it ended.
//!
//! The crate holds the decisions of that lifecycle and none of its system
//! calls: a driver performs each call the library asks for and hands back what
//! the operating system answered.

pub mod child;
pub mod command;
pub mod error;
pub mod launch;
pub mod status;
mod sys;

pub use command::Command;
pub use error::Error;
