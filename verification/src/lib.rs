//! A synchronous-to-asynchronous call bridge for a callback-driven,
//! POSIX-like filesystem-protocol dispatcher.
//!
//! A kernel-facing session thread dispatches one protocol operation at a
//! time and cannot suspend.  The handler logic that decides what each
//! operation returns runs in a separate asynchronous environment.  This
//! crate holds the logic of the bridge between the two: the result
//! envelopes that carry "success value or protocol error code" for each
//! operation family, the rendezvous that waits a bounded time for the
//! asynchronous side, and the translation of every envelope into the one
//! protocol reply that the operation owes.

pub mod attrs;
pub mod bridge;
pub mod dir;
pub mod envelope;
pub mod proxy;
