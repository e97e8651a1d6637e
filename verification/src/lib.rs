//! A minimal application shell: a greeting handler and a quit handler,
//! together with the dispatch table that a front end invokes them through.
//!
//! The shell's host loop (reading requests, printing replies, terminating
//! the process) lives outside this crate; everything here is the decision
//! logic the loop consults, verified.

pub mod greeting;

pub mod registry;
