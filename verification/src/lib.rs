//! Core of a small remote task-execution service: tasks are submitted with a
//! payload and arguments, queued first-in-first-out, picked up by a bounded
//! pool of workers, and driven through a status lifecycle
//! (WAIT -> RUNNING -> SUCCESS/ERROR) that clients can poll by identifier.
//!
//! This crate holds the dispatch and lifecycle logic itself: the status
//! store, the task queue, the per-task state machine and the outcome
//! classification. Running the subprocesses, the HTTP transport and the
//! concurrency shell around the store live in the embedding application.

pub mod execution;
pub mod handlers;
pub mod input_parser;
pub mod lifecycle;
pub mod models;
pub mod server;
pub mod worker_pool;
