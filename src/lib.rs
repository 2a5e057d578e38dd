//! A dispatch bridge between many concurrent callers that want HTML rendered
//! and the single worker that owns the (non-thread-safe) rendering engine.
//!
//! Callers submit render requests to a FIFO queue and receive a ticket; the
//! worker takes requests in order, runs the engine on each one, and writes the
//! outcome into that request's completion slot, which only the ticket's holder
//! reads.  The locking and waking around these steps is left to the host.
pub mod dispatch;
pub mod engine;
pub mod error;
pub mod page;
pub mod template;
pub mod web;
