//! The lifecycle of a window session: one window, its pending input events,
//! an event-filter policy, one rendered frame per iteration, and an orderly
//! shutdown once a close request has been observed.
//!
//! The session performs no windowing or drawing itself. A driver owns the
//! native window and the renderer; it reports what happened (the events that
//! were drained, how a frame ended) and the session decides what comes next.

pub mod buffer;
pub mod input;
pub mod laws;
pub mod policy;
pub mod resource;
pub mod session;
pub mod window;
