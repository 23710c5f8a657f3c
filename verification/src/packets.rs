//! Packet definitions and the framing shared by all of them.

use vstd::prelude::*;

use crate::packets::buffer::{byte_bits, copy_bits, set_bit, STORAGE_BITS};
use crate::Error;

pub mod baseline;
pub mod buffer;

pub use crate::packets::baseline::{
    BroadcastStop, Direction, Idle, Reset, SpeedAndDirection, SpeedAndDirectionBuilder,
};
pub use crate::packets::buffer::SerializeBuffer;

verus! {

/// An ID corresponding to the address of a decoder
pub type Address = u8;

/// Convenient Result wrapper
pub type Result<T> = core::result::Result<T, Error>;

/// The most bits that a packet may take: the preamble, four data bytes with
/// their start bits, and the stop bit.
pub const MAX_BITS: usize = 15 + 4 * 9 + 1;

/// Number of bits in the frame of `n` data bytes: fifteen preamble bits, a
/// start bit and eight data bits for each byte, and the stop bit.
pub open spec fn frame_len(n: nat) -> nat {
    15 + 9 * n + 1
}

/// Bit `i` of the frame of `data`: ones up to the first start bit, then for
/// each byte a zero and the byte's bits, most significant first, and a one
/// behind the last byte.
pub open spec fn frame_bit(data: Seq<u8>, i: int) -> bool {
    if i < 15 || i == 15 + 9 * data.len() {
        true
    } else if (i - 15) % 9 == 0 {
        false
    } else {
        byte_bits(data[(i - 15) / 9])[(i - 15) % 9 - 1]
    }
}

/// The frame of `data` as it goes onto the rails.
pub open spec fn frame(data: Seq<u8>) -> Seq<bool> {
    Seq::new(frame_len(data.len()), |i: int| frame_bit(data, i))
}

/// Where byte `k` of the data stands in the frame: behind a zero at
/// `15 + 9 * k`, its bit `j` at `16 + 9 * k + j`.
proof fn lemma_frame_byte_bit(data: Seq<u8>, k: int, j: int)
    requires
        0 <= k < data.len(),
        0 <= j < 8,
    ensures
        frame_bit(data, 15 + 9 * k) == false,
        frame_bit(data, 16 + 9 * k + j) == byte_bits(data[k])[j],
{
    assert((9 * k) % 9 == 0 && (9 * k) / 9 == k);
    assert((9 * k + j + 1) / 9 == k && (9 * k + j + 1) % 9 == j + 1);
}

/// The two ends of a frame: it starts with fifteen ones, which is more than
/// the fourteen that a preamble needs, and a one ends it.
pub proof fn lemma_frame_ends(data: Seq<u8>)
    ensures
        frame(data).len() == 16 + 9 * data.len(),
        frame(data).subrange(0, 15) == Seq::new(15, |i: int| true),
        frame(data).last() == true,
{
    assert(frame(data).subrange(0, 15) =~= Seq::new(15, |i: int| true));
}

/// The place of a byte in the frame: byte `k` of the data stands behind a
/// zero, the start bit at `15 + 9 * k`, most significant bit first.
pub proof fn lemma_frame_byte(data: Seq<u8>, k: int)
    requires
        0 <= k < data.len(),
    ensures
        frame(data)[15 + 9 * k] == false,
        frame(data).subrange(16 + 9 * k, 24 + 9 * k) == byte_bits(data[k]),
{
    lemma_frame_byte_bit(data, k, 0);
    let part = frame(data).subrange(16 + 9 * k, 24 + 9 * k);
    assert forall|j: int| 0 <= j < 8 implies part[j] == byte_bits(data[k])[j] by {
        lemma_frame_byte_bit(data, k, j);
    }
    assert(part =~= byte_bits(data[k]));
}

/// The two bytes written first are fifteen ones and a zero.
proof fn lemma_preamble_bits()
    ensures
        byte_bits(0xff) == seq![true, true, true, true, true, true, true, true],
        byte_bits(0xfe) == seq![true, true, true, true, true, true, true, false],
{
    assert(0xffu8 & 0x80 != 0 && 0xffu8 & 0x40 != 0 && 0xffu8 & 0x20 != 0 && 0xffu8 & 0x10 != 0
        && 0xffu8 & 0x08 != 0 && 0xffu8 & 0x04 != 0 && 0xffu8 & 0x02 != 0 && 0xffu8 & 0x01 != 0)
        by (bit_vector);
    assert(0xfeu8 & 0x80 != 0 && 0xfeu8 & 0x40 != 0 && 0xfeu8 & 0x20 != 0 && 0xfeu8 & 0x10 != 0
        && 0xfeu8 & 0x08 != 0 && 0xfeu8 & 0x04 != 0 && 0xfeu8 & 0x02 != 0 && 0xfeu8 & 0x01 == 0)
        by (bit_vector);
}

/// Represents a generic Operations Mode packet that can be transmitted or received
pub trait Packet {
    /// Serialize the packet
    ///
    /// # Returns
    ///
    /// Returns the total bits needed to transmit the packet if `Ok`, otherwise [`Error`]s.
    fn serialize(data: &[u8], buf: &mut SerializeBuffer) -> (r: Result<usize>)
        ensures
            match r {
                Ok(n) => {
                    &&& frame_len(data@.len()) <= MAX_BITS
                    &&& n == frame_len(data@.len())
                    &&& final(buf)@ == frame(data@) + old(buf)@.subrange(
                        n as int,
                        STORAGE_BITS as int,
                    )
                },
                Err(e) => {
                    &&& frame_len(data@.len()) > MAX_BITS
                    &&& e == Error::TooLong
                    &&& *final(buf) == *old(buf)
                },
            },
    {
        // check that the provided data will fit into the buffer: the frame
        // takes 15 + 9 * len + 1 bits
        if data.len() > (MAX_BITS - 16) / 9 {
            return Err(Error::TooLong);
        }
        let ghost before = buf@;

        copy_bits(buf, 0, 16, &[0xff, 0xfe]);  // preamble
        proof {
            lemma_preamble_bits();
        }

        let mut pos: usize = 15;  // move after preamble
        let mut i: usize = 0;
        while i < data.len()
            invariant
                frame_len(data@.len()) <= MAX_BITS,
                i <= data@.len(),
                pos == 15 + 9 * i,
                forall|k: int| 0 <= k < pos ==> buf@[k] == frame_bit(data@, k),
                forall|k: int| pos < k < STORAGE_BITS ==> buf@[k] == before[k],
            decreases data@.len() - i,
        {
            set_bit(buf, pos, false);  // marks the start of a new byte
            pos += 1;
            copy_bits(buf, pos, pos + 8, &[data[i]]);
            pos += 8;
            i += 1;
        }

        set_bit(buf, pos, true);  // stop bit
        pos += 1;

        Ok(pos)
    }
}

} // verus!
