//! Broadcast-manager (BCM) CAN sockets as lazily produced sequences of frames.
//!
//! The library holds the parts that decide: identifiers and frames, the
//! fixed-layout codec of broadcast-manager messages, and the two poll state
//! machines that turn readiness events and raw reads into yielded items.
//! Sockets, the reactor and the wakers live with the caller.
pub mod id;
pub mod frame;
pub mod codec;
pub mod stream;
pub mod laws;
