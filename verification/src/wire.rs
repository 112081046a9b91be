//! Big-endian integer fields as they appear on the wire.
//!
//! The model is arithmetic: a field is the number its bytes spell in base 256.
//! The executable readers and writers use shifts and masks and are proved
//! against that model.

use vstd::prelude::*;

verus! {

/// The number spelled by two bytes, most significant first.
pub open spec fn be16(b0: u8, b1: u8) -> nat {
    (b0 as nat) * 0x100 + (b1 as nat)
}

/// The number spelled by three bytes, most significant first.
pub open spec fn be24(b0: u8, b1: u8, b2: u8) -> nat {
    (b0 as nat) * 0x1_0000 + (b1 as nat) * 0x100 + (b2 as nat)
}

/// The number spelled by four bytes, most significant first.
pub open spec fn be32(b0: u8, b1: u8, b2: u8, b3: u8) -> nat {
    (b0 as nat) * 0x100_0000 + (b1 as nat) * 0x1_0000 + (b2 as nat) * 0x100 + (b3 as nat)
}

/// The two big-endian bytes of `v`.
pub open spec fn be16_bytes(v: u16) -> Seq<u8> {
    seq![(v / 0x100) as u8, (v % 0x100) as u8]
}

/// The three big-endian bytes of the low 24 bits of `v`: its four-byte
/// representation with the top byte dropped.
pub open spec fn be24_bytes(v: u32) -> Seq<u8> {
    seq![(v / 0x1_0000 % 0x100) as u8, (v / 0x100 % 0x100) as u8, (v % 0x100) as u8]
}

/// The four big-endian bytes of `v`.
pub open spec fn be32_bytes(v: u32) -> Seq<u8> {
    seq![
        (v / 0x100_0000) as u8,
        (v / 0x1_0000 % 0x100) as u8,
        (v / 0x100 % 0x100) as u8,
        (v % 0x100) as u8,
    ]
}

/// Reading back the bytes written for a 16-bit value gives that value.
pub proof fn lemma_be16_of_bytes(v: u16)
    ensures
        be16_bytes(v).len() == 2,
        be16(be16_bytes(v)[0], be16_bytes(v)[1]) == v,
{
}

/// Reading back the bytes written for a value below 2^24 gives that value.
pub proof fn lemma_be24_of_bytes(v: u32)
    requires
        v < 0x100_0000,
    ensures
        be24_bytes(v).len() == 3,
        be24(be24_bytes(v)[0], be24_bytes(v)[1], be24_bytes(v)[2]) == v,
{
}

/// Reading back the bytes written for a 32-bit value gives that value.
pub proof fn lemma_be32_of_bytes(v: u32)
    ensures
        be32_bytes(v).len() == 4,
        be32(be32_bytes(v)[0], be32_bytes(v)[1], be32_bytes(v)[2], be32_bytes(v)[3]) == v,
{
}

/// Reads the 16-bit big-endian field that starts at `at`.
pub fn read_u16(buf: &[u8], at: usize) -> (v: u16)
    requires
        at + 2 <= buf@.len(),
    ensures
        v == be16(buf@[at as int], buf@[at + 1]),
{
    let b0: u16 = buf[at] as u16;
    let b1: u16 = buf[at + 1] as u16;
    assert((b0 << 8) | b1 == b0 * 0x100 + b1) by (bit_vector)
        requires
            b0 < 0x100,
            b1 < 0x100,
    ;
    (b0 << 8) | b1
}

/// Reads the 24-bit big-endian field that starts at `at`.
pub fn read_u24(buf: &[u8], at: usize) -> (v: u32)
    requires
        at + 3 <= buf@.len(),
    ensures
        v == be24(buf@[at as int], buf@[at + 1], buf@[at + 2]),
{
    let b0: u32 = buf[at] as u32;
    let b1: u32 = buf[at + 1] as u32;
    let b2: u32 = buf[at + 2] as u32;
    assert((b0 << 16) | (b1 << 8) | b2 == b0 * 0x1_0000 + b1 * 0x100 + b2) by (bit_vector)
        requires
            b0 < 0x100,
            b1 < 0x100,
            b2 < 0x100,
    ;
    (b0 << 16) | (b1 << 8) | b2
}

/// Reads the 32-bit big-endian field that starts at `at`.
pub fn read_u32(buf: &[u8], at: usize) -> (v: u32)
    requires
        at + 4 <= buf@.len(),
    ensures
        v == be32(buf@[at as int], buf@[at + 1], buf@[at + 2], buf@[at + 3]),
{
    let b0: u32 = buf[at] as u32;
    let b1: u32 = buf[at + 1] as u32;
    let b2: u32 = buf[at + 2] as u32;
    let b3: u32 = buf[at + 3] as u32;
    assert((b0 << 24) | (b1 << 16) | (b2 << 8) | b3 == b0 * 0x100_0000 + b1 * 0x1_0000 + b2 * 0x100
        + b3) by (bit_vector)
        requires
            b0 < 0x100,
            b1 < 0x100,
            b2 < 0x100,
            b3 < 0x100,
    ;
    (b0 << 24) | (b1 << 16) | (b2 << 8) | b3
}

/// Appends the two big-endian bytes of `v` to `out`.
pub fn push_u16(out: &mut Vec<u8>, v: u16)
    ensures
        final(out)@ == old(out)@ + be16_bytes(v),
{
    let b0: u8 = (v >> 8) as u8;
    let b1: u8 = (v & 0xff) as u8;
    assert((v >> 8) == v / 0x100 && (v & 0xff) == v % 0x100) by (bit_vector);
    out.push(b0);
    out.push(b1);
    assert(out@ =~= old(out)@ + be16_bytes(v));
}

/// Appends the three big-endian bytes of the low 24 bits of `v` to `out`.
pub fn push_u24(out: &mut Vec<u8>, v: u32)
    ensures
        final(out)@ == old(out)@ + be24_bytes(v),
{
    let b0: u8 = ((v >> 16) & 0xff) as u8;
    let b1: u8 = ((v >> 8) & 0xff) as u8;
    let b2: u8 = (v & 0xff) as u8;
    assert(((v >> 16) & 0xff) == v / 0x1_0000 % 0x100 && ((v >> 8) & 0xff) == v / 0x100 % 0x100 && (
    v & 0xff) == v % 0x100) by (bit_vector);
    out.push(b0);
    out.push(b1);
    out.push(b2);
    assert(out@ =~= old(out)@ + be24_bytes(v));
}

/// Appends the four big-endian bytes of `v` to `out`.
pub fn push_u32(out: &mut Vec<u8>, v: u32)
    ensures
        final(out)@ == old(out)@ + be32_bytes(v),
{
    let b0: u8 = (v >> 24) as u8;
    let b1: u8 = ((v >> 16) & 0xff) as u8;
    let b2: u8 = ((v >> 8) & 0xff) as u8;
    let b3: u8 = (v & 0xff) as u8;
    assert((v >> 24) == v / 0x100_0000 && ((v >> 16) & 0xff) == v / 0x1_0000 % 0x100 && ((v >> 8)
        & 0xff) == v / 0x100 % 0x100 && (v & 0xff) == v % 0x100) by (bit_vector);
    out.push(b0);
    out.push(b1);
    out.push(b2);
    out.push(b3);
    assert(out@ =~= old(out)@ + be32_bytes(v));
}

} // verus!
