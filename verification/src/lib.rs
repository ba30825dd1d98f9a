//! Orchestration core of a long-running chat-bot process: the runtime state
//! machine, module lifecycle registry, background-task supervision, event
//! dispatch classification and the multi-stage shutdown escalation protocol,
//! together with a quoted-token lexer for command-line style input.

pub mod config;
pub mod lexer;
pub mod modules;
pub mod runtime;
pub mod shutdown;
pub mod signal;
