//! Decision core of a command-line notifier: which single outbound
//! operation an invocation stands for, and what its text payload is.

pub mod action;
pub mod resolve;
pub mod config;
pub mod execute;
