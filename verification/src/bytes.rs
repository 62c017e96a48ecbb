//! Big-endian encoding of 32-bit values, the integer layout of box headers.

use vstd::prelude::*;

verus! {

/// The four big-endian bytes of a 32-bit value, most significant first.
pub open spec fn be_bytes_of_u32(v: u32) -> Seq<u8> {
    seq![
        (v / 0x1000000) as u8,
        ((v / 0x10000) % 0x100) as u8,
        ((v / 0x100) % 0x100) as u8,
        (v % 0x100) as u8,
    ]
}

/// The 32-bit value carried by four big-endian bytes.
pub open spec fn u32_of_be_bytes(b: Seq<u8>) -> u32
    recommends
        b.len() == 4,
{
    (b[0] * 0x1000000 + b[1] * 0x10000 + b[2] * 0x100 + b[3]) as u32
}

/// Decoding the four big-endian bytes of a value gives the value back.
pub proof fn lemma_u32_be_roundtrip(v: u32)
    ensures
        u32_of_be_bytes(be_bytes_of_u32(v)) == v,
{
    assert((v / 0x1000000) * 0x1000000 + ((v / 0x10000) % 0x100) * 0x10000 + ((v / 0x100)
        % 0x100) * 0x100 + (v % 0x100) == v) by (bit_vector);
}

/// Reads the 32-bit value that four big-endian bytes carry.
pub fn u32_from_be(b0: u8, b1: u8, b2: u8, b3: u8) -> (r: u32)
    ensures
        r == u32_of_be_bytes(seq![b0, b1, b2, b3]),
{
    (b0 as u32) * 0x1000000 + (b1 as u32) * 0x10000 + (b2 as u32) * 0x100 + (b3 as u32)
}

/// Appends the four big-endian bytes of a 32-bit value.
pub fn append_u32_be(out: &mut Vec<u8>, v: u32)
    ensures
        final(out)@ == old(out)@ + be_bytes_of_u32(v),
{
    out.push((v / 0x1000000) as u8);
    out.push(((v / 0x10000) % 0x100) as u8);
    out.push(((v / 0x100) % 0x100) as u8);
    out.push((v % 0x100) as u8);
    assert(out@ =~= old(out)@ + be_bytes_of_u32(v));
}

} // verus!
