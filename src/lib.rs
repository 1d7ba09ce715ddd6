//! A verified bridge between a typed in-process event API and a host-owned,
//! string-keyed, type-erased event bus.
//!
//! The library computes every call that goes to the host (identifier encoding,
//! payload erasure, the undo action of a subscription) as a plain value; the
//! code that owns the host's entry points performs it.

pub mod identifier;
pub mod payload;
pub mod event;
pub mod bus;
pub mod laws;
pub mod api;
