//! Preview orchestration for an interactive file browser.
//!
//! For the currently highlighted filesystem entry the library decides whether
//! the content on screen can be reused, which previewer to run, when stale
//! asynchronous work must be cancelled, and how a directory listing is
//! re-loaded in bounded batches. The decisions are verified; the surrounding
//! runtime (spawning tasks, timers, drawing) performs what they prescribe.

pub mod entry;
pub mod loader;
pub mod preview;
pub mod runtime;
pub mod ticket;
