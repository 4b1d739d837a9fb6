//! An event bridge between poll-driven native sources (a windowing event
//! loop, a webview's message hook) and any number of cooperative listeners.
//!
//! Everything here is synchronous state: the host suspends and resumes
//! tasks, and asks these types what to do each time a task wakes up.

pub mod channel;
pub mod config;
pub mod ipc;
pub mod listener;
pub mod message;
pub mod pump;
pub mod script;
