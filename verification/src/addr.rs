//! The composite addressing scheme.
//!
//! A single native instruction expands into one or more REIL instructions.
//! Each REIL instruction is identified by a composite 64-bit address that
//! packs the native instruction's address into the high 56 bits and the
//! REIL offset (the index within the expansion, always a single byte) into
//! the low 8 bits. The encoding is lossless for native addresses below
//! 2^56, and composite addresses order REIL instructions the way the
//! engine emits them: by native address first, then by offset.

use vstd::prelude::*;

verus! {

/// The composite address of the REIL instruction at index `offset` within
/// the expansion of the native instruction at `raw`. The shift discards
/// the top 8 bits of `raw`; they are zero for every address the engine
/// produces.
pub open spec fn composite(raw: u64, offset: u8) -> u64 {
    (raw << 8) | (offset as u64)
}

/// Combines a native instruction address and a REIL offset into one
/// composite 64-bit address.
pub fn encode(raw: u64, offset: u8) -> (r: u64)
    ensures
        r == composite(raw, offset),
{
    (raw << 8) | (offset as u64)
}

/// Recovers the REIL offset: the low 8 bits of a composite address.
pub fn decode_offset(addr: u64) -> (r: u8)
    ensures
        r == (addr & 0xff) as u8,
{
    (addr & 0xff) as u8
}

/// Recovers the native instruction address: a composite address with its
/// low 8 bits dropped.
pub fn decode_raw(addr: u64) -> (r: u64)
    ensures
        r == addr >> 8,
{
    addr >> 8
}

/// The encoding is lossless: the offset is always recovered exactly, and
/// for every native address that fits in 56 bits the high bits of the
/// composite address recover that address exactly.
pub proof fn lemma_encode_decode(raw: u64, offset: u8)
    ensures
        composite(raw, offset) & 0xff == offset as u64,
        raw < 0x100_0000_0000_0000 ==> composite(raw, offset) >> 8 == raw,
{
    assert(((raw << 8) | (offset as u64)) & 0xff == offset as u64) by (bit_vector);
    assert(raw < 0x100_0000_0000_0000 ==> ((raw << 8) | (offset as u64)) >> 8 == raw)
        by (bit_vector);
}

/// Composite addresses are ordered first by native address, then by REIL
/// offset: the engine emits REIL instructions in exactly this order, so
/// composite addresses of a well-formed stream never decrease.
pub proof fn lemma_encode_order(r1: u64, o1: u8, r2: u64, o2: u8)
    requires
        r1 < 0x100_0000_0000_0000,
        r2 < 0x100_0000_0000_0000,
    ensures
        r1 < r2 ==> composite(r1, o1) < composite(r2, o2),
        r1 == r2 && o1 < o2 ==> composite(r1, o1) < composite(r2, o2),
{
    assert(r1 < 0x100_0000_0000_0000 && r2 < 0x100_0000_0000_0000 && r1 < r2 ==> ((r1 << 8)
        | (o1 as u64)) < ((r2 << 8) | (o2 as u64))) by (bit_vector);
    assert(r1 == r2 && o1 < o2 ==> ((r1 << 8) | (o1 as u64)) < ((r2 << 8) | (o2 as u64)))
        by (bit_vector);
}

/// Distinct (address, offset) pairs always get distinct composite
/// addresses: a composite address identifies one REIL instruction.
pub proof fn lemma_encode_injective(r1: u64, o1: u8, r2: u64, o2: u8)
    requires
        r1 < 0x100_0000_0000_0000,
        r2 < 0x100_0000_0000_0000,
    ensures
        composite(r1, o1) == composite(r2, o2) ==> r1 == r2 && o1 == o2,
{
    assert(r1 < 0x100_0000_0000_0000 && r2 < 0x100_0000_0000_0000 && ((r1 << 8) | (o1 as u64))
        == ((r2 << 8) | (o2 as u64)) ==> r1 == r2 && o1 == o2) by (bit_vector);
}

} // verus!
