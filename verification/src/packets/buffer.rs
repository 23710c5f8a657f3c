//! The bit buffer that packets are rendered into.
//!
//! The storage is a `bitvec` bit array over seven bytes, read most
//! significant bit first. Verification sees it through [`buffer_bits`] and
//! the contracts of the few operations below.

use vstd::prelude::*;

use bitvec::array::BitArray;
use bitvec::order::Msb0;
use bitvec::view::BitView;

verus! {

/// Number of bits that a [`SerializeBuffer`] stores.
pub const STORAGE_BITS: usize = 56;

/// A buffer long enough to hold any common DCC packet.
#[verifier::external_body]
#[derive(Debug, PartialEq, Eq)]
pub struct SerializeBuffer {
    bits: BitArray<[u8; 7], Msb0>,
}

/// The bits that a buffer holds, first bit first.
pub uninterp spec fn buffer_bits(buf: SerializeBuffer) -> Seq<bool>;

impl View for SerializeBuffer {
    type V = Seq<bool>;

    /// The [`STORAGE_BITS`] bits of the buffer, first bit first.
    open spec fn view(&self) -> Seq<bool> {
        Seq::new(STORAGE_BITS as nat, |i: int| buffer_bits(*self)[i])
    }
}

/// The bits of one byte, most significant bit first.
pub open spec fn byte_bits(byte: u8) -> Seq<bool> {
    seq![
        byte & 0x80 != 0,
        byte & 0x40 != 0,
        byte & 0x20 != 0,
        byte & 0x10 != 0,
        byte & 0x08 != 0,
        byte & 0x04 != 0,
        byte & 0x02 != 0,
        byte & 0x01 != 0,
    ]
}

/// The bits of a run of bytes: each byte in turn, most significant bit first.
pub open spec fn bytes_bits(bytes: Seq<u8>) -> Seq<bool> {
    Seq::new(8 * bytes.len(), |k: int| byte_bits(bytes[k / 8])[k % 8])
}

/// `BitArray::default`: a buffer in which every bit is zero.
#[verifier::external_body]
fn zeroed() -> (buf: SerializeBuffer)
    ensures
        forall|i: int| 0 <= i < STORAGE_BITS ==> buffer_bits(buf)[i] == false,
{
    SerializeBuffer { bits: BitArray::default() }
}

/// Indexing a `BitArray` by position: the bit at `index`. The outside call
/// panics at or beyond the length, here [`STORAGE_BITS`].
#[verifier::external_body]
fn bit_at(buf: &SerializeBuffer, index: usize) -> (bit: bool)
    requires
        index < STORAGE_BITS,
    ensures
        bit == buffer_bits(*buf)[index as int],
{
    buf.bits[index]
}

/// `BitSlice::set`: writes `value` at `index` and leaves every other bit as
/// it was. The outside call panics at or beyond the length.
#[verifier::external_body]
pub(crate) fn set_bit(buf: &mut SerializeBuffer, index: usize, value: bool)
    requires
        index < STORAGE_BITS,
    ensures
        forall|i: int|
            0 <= i < STORAGE_BITS ==> buffer_bits(*final(buf))[i] == if i == index {
                value
            } else {
                buffer_bits(*old(buf))[i]
            },
{
    buf.bits.set(index, value);
}

/// `BitSlice::copy_from_bitslice` on the range `start..end` of the buffer,
/// from the `Msb0` bit view of `src`: the range takes the bits of `src`, byte
/// by byte and most significant bit first, and every bit outside it stays.
/// The outside calls panic where the range leaves the buffer or where the two
/// lengths differ.
#[verifier::external_body]
pub(crate) fn copy_bits(buf: &mut SerializeBuffer, start: usize, end: usize, src: &[u8])
    requires
        start <= end <= STORAGE_BITS,
        end - start == 8 * src@.len(),
    ensures
        forall|i: int|
            0 <= i < STORAGE_BITS ==> buffer_bits(*final(buf))[i] == if start <= i < end {
                bytes_bits(src@)[i - start]
            } else {
                buffer_bits(*old(buf))[i]
            },
{
    buf.bits[start..end].copy_from_bitslice(src.view_bits::<Msb0>());
}

impl Default for SerializeBuffer {
    /// A buffer in which every bit is zero.
    fn default() -> (buf: Self)
        ensures
            buf@ == Seq::new(STORAGE_BITS as nat, |i: int| false),
    {
        zeroed()
    }
}

impl SerializeBuffer {
    /// The bit at `index`, or `None` where `index` is beyond the buffer.
    pub fn get(&self, index: usize) -> (bit: Option<bool>)
        ensures
            bit == if index < STORAGE_BITS {
                Some(self@[index as int])
            } else {
                None
            },
    {
        if index < STORAGE_BITS {
            Some(bit_at(self, index))
        } else {
            None
        }
    }
}

} // verus!
