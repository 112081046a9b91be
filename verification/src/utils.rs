//! Helpers shared by the decoder and the reassembler.

use crate::wire::{be24, read_u24};
use vstd::prelude::*;

verus! {

/// The payload length that a frame header declares: the 24-bit big-endian
/// number in its first three bytes.
pub open spec fn declared_len(buf: Seq<u8>) -> nat
    recommends
        buf.len() >= 3,
{
    be24(buf[0], buf[1], buf[2])
}

/// Reads the payload length that the header at the start of `buf` declares.
/// The first three bytes must be there.
pub fn extract_length(buf: &[u8]) -> (len: u32)
    requires
        buf@.len() >= 3,
    ensures
        len == declared_len(buf@),
        len <= 0xff_ffff,
{
    read_u24(buf, 0)
}

} // verus!
