//! Core logic of a serial-to-TCP log relay for a small embedded device.
//!
//! The device reads a continuous byte stream from a serial peripheral and
//! forwards it, byte for byte, to a single TCP client over a wireless link.
//! This crate holds the verified substrate of that device: the bounded
//! mailbox that connects the producer and consumer actors, the chunk type
//! that messages carry, the supervisory state machine that keeps the
//! wireless link alive, and the step logic of the two actors. The
//! hardware-facing loops (serial reads, socket writes, radio control) live
//! outside and drive these state machines with plain values.

pub mod actor;
pub mod chunk;
pub mod link;
pub mod mailbox;
pub mod reader;
pub mod relay;
pub mod sender;
