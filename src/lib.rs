//! Two peers set up a direct data channel by exchanging one signaling line each by
//! hand, then relay text lines over it. This crate holds the decisions: the line
//! codec for session descriptions, the handshake of each role, the outbound relay,
//! and the monitor and shutdown coordinator. A driver performs the engine calls and
//! the I/O that each decision asks for.
pub mod codec;
pub mod error;
pub mod handshake;
pub mod latch;
pub mod monitor;
pub mod relay;
