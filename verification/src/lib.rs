//! Packet framing for a radar sensor byte stream.
//!
//! A sensor delivers frames either as a continuous byte stream (magic-word
//! delimited, with a fixed 32-byte header and a variable payload) or as
//! fixed-size datagrams. This crate holds the framing engine itself:
//! magic-word resynchronization, stall-tolerant buffered assembly, header
//! decoding and validation, and the datagram frame acceptance rules. The
//! transport (serial port, socket) is driven by the embedding program, which
//! feeds bytes and timestamps into the state machines defined here.

pub mod assembler;
pub mod datagram;
pub mod engine;
pub mod sync;
pub mod types;
