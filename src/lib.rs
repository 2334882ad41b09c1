//! A judge worker: the decisions of a job-grading agent that talks to a
//! coordinator, caches test suites, and runs tests inside containers.
//!
//! Everything here is plain data and plain transitions. The asynchronous
//! plumbing (sockets, the container daemon, timers) drives these state
//! machines from outside and hands their results back in as events:
//!
//! - `cancel_tree`: a forest of cancellation tokens;
//! - `capture`: output of a command, capped per stream;
//! - `config`: configuration, command line, coordinator endpoints, cache paths;
//! - `control`: job polling and the registry of running and cancelled jobs;
//! - `error`: failures of a job and how they are reported;
//! - `executor`: which test cases run, their steps, and their verdicts;
//! - `model`: the messages exchanged with the coordinator;
//! - `paths`: checks on paths taken from a submission;
//! - `pipeline`: the life of one job, from suite to final report;
//! - `process`: the outcome of one command;
//! - `runner`: setup and teardown of a container runner;
//! - `suite_cache`: when and how a cached test suite is brought up to date;
//! - `template`: filling placeholders of command templates.
pub mod cancel_tree;
pub mod capture;
pub mod config;
pub mod control;
pub mod error;
pub mod executor;
pub mod model;
pub mod paths;
pub mod pipeline;
pub mod process;
pub mod runner;
pub mod suite_cache;
pub mod template;
