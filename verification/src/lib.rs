//! Encoder for NMRA Digital Command Control (DCC) packets.
//!
//! A packet value is rendered into the exact run of bits that goes onto the
//! rails: preamble, start bits, payload bytes, checksum and stop bit.

use vstd::prelude::*;

pub mod packets;

verus! {

/// What can go wrong while a packet is described or rendered.
#[derive(Debug, Clone, Copy, PartialEq, Eq, Structural)]
pub enum Error {
    /// The address is zero or lies above the short-address range.
    InvalidAddress,
    /// The speed lies above the highest speed step.
    InvalidSpeed,
    /// The payload does not fit into the serialize buffer.
    TooLong,
}

} // verus!
