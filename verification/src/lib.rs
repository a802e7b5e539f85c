//! Verified core of an in-process tracer for a program's heap allocator.
//!
//! The tracer intercepts calls to allocation primitives, pairs each call's
//! entry with its return, and commits one event per completed call to a
//! trace buffer that interns callstacks by id. This crate holds the rules of
//! that pipeline; reading the machine state, talking to the instrumentation
//! engine and writing files is left to the program that embeds it.

pub mod allocator;
pub mod config;
pub mod document;
pub mod engine;
pub mod hooks;
pub mod json;
pub mod log;
pub mod output;
pub mod setup;
pub mod state;
pub mod text;
pub mod thread;
pub mod trace;
