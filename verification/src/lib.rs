//! A small interactive shell, verified with Verus.
//!
//! The library holds everything the shell decides and computes: splitting an
//! input line into tokens, dispatching a command name to a built-in operation
//! or to the launcher, resolving a command name against the search path, and
//! building the argument and environment vectors handed to a child process.
//! Reading input, printing, and the fork/exec/wait cycle live outside the
//! library, driven by the values it returns.

pub mod builtins;
pub mod command;
pub mod dispatch;
pub mod launch;
pub mod state;
mod sys;
pub mod text;
