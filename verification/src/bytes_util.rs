//! Byte-sequence vocabulary shared by the binary formats.

use vstd::prelude::*;

verus! {

/// The two bytes of a 16-bit word, most significant first.
pub open spec fn be16(word: u16) -> Seq<u8> {
    seq![(word >> 8) as u8, (word & 0xFF) as u8]
}

/// The four bytes of a 32-bit word, most significant first.
pub open spec fn be32(word: u32) -> Seq<u8> {
    seq![
        (word >> 24) as u8,
        ((word >> 16) & 0xFF) as u8,
        ((word >> 8) & 0xFF) as u8,
        (word & 0xFF) as u8,
    ]
}

/// `count` copies of one byte.
pub open spec fn repeated(byte: u8, count: nat) -> Seq<u8> {
    Seq::new(count, |i: int| byte)
}

/// Append a slice.
pub fn append_bytes(out: &mut Vec<u8>, data: &[u8])
    ensures
        final(out)@ == old(out)@ + data@,
{
    let ghost before = out@;
    out.extend_from_slice(data);
    assert(out@ =~= before + data@);
}

/// Append a 16-bit word, most significant byte first.
pub fn append_be16(out: &mut Vec<u8>, word: u16)
    ensures
        final(out)@ == old(out)@ + be16(word),
{
    let ghost before = out@;
    assert(word >> 8 <= 0xFF) by (bit_vector);
    assert(word & 0xFF <= 0xFF) by (bit_vector);
    out.push((word >> 8) as u8);
    out.push((word & 0xFF) as u8);
    assert(out@ =~= before + be16(word));
}

/// Append a 32-bit word, most significant byte first.
pub fn append_be32(out: &mut Vec<u8>, word: u32)
    ensures
        final(out)@ == old(out)@ + be32(word),
{
    let ghost before = out@;
    out.push((word >> 24) as u8);
    out.push(((word >> 16) & 0xFF) as u8);
    out.push(((word >> 8) & 0xFF) as u8);
    out.push((word & 0xFF) as u8);
    assert(out@ =~= before + be32(word));
}

/// Append `count` copies of one byte.
pub fn append_repeated(out: &mut Vec<u8>, byte: u8, count: usize)
    ensures
        final(out)@ == old(out)@ + repeated(byte, count as nat),
{
    let ghost before = out@;
    let mut done: usize = 0;
    assert(out@ =~= before + repeated(byte, 0));
    while done < count
        invariant
            done <= count,
            out@ == before + repeated(byte, done as nat),
        decreases count - done,
    {
        out.push(byte);
        done += 1;
        assert(out@ =~= before + repeated(byte, done as nat));
    }
}

} // verus!
