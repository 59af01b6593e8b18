//! A host for one sandboxed workload that runs in response to trigger events.
//!
//! The library holds the decisions of the host: how a workload reference is
//! resolved and brought into component form, which memory strategy the engine
//! gets, which subscriptions the configured triggers ask for, and how events,
//! task completions and the interrupt signal move the scheduler. Reading files,
//! fetching URLs, talking to the broker and running the sandbox are left to the
//! program around it.

pub mod component;
pub mod config;
pub mod engine;
pub mod linking;
pub mod scheduler;
pub mod subscription;
pub mod task;
pub mod workload;
