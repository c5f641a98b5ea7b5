//! Decoding, sequencing and presentation of fixed-layout racing telemetry.
//!
//! A telemetry sample arrives as one datagram of packed little-endian
//! fields. This crate turns such a buffer into a [`Packet`], classifies
//! the stream of packet identifiers, and renders a few human-readable
//! views. Every scalar that is a binary floating-point number on the wire
//! is held here as its raw IEEE-754 bit pattern, so a decoded record is
//! an exact image of the bytes it came from.

pub mod ieee;
pub mod record;
pub mod codec;
pub mod roundtrip;
pub mod sequence;
pub mod format;
pub mod errors;

pub use codec::{decode, encode, DecodeError, Decoded, Policy, PACKET_SIZE, WIRE_SIZE};
pub use errors::WrcError;
pub use format::{format_duration, format_whole_seconds, percentage};
pub use record::Packet;
pub use sequence::{SequenceEvent, SequenceMonitor};
