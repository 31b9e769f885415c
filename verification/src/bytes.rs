//! Big-endian encoding of 32-bit integers, as used by every integer field
//! of the protocol and by the length prefix of a frame.

use vstd::prelude::*;

verus! {

/// The integer that four bytes denote in big-endian order.
pub open spec fn be_value(b0: u8, b1: u8, b2: u8, b3: u8) -> int {
    b0 * 0x100_0000 + b1 * 0x1_0000 + b2 * 0x100 + b3
}

/// The integer that the first four bytes of `s` denote in big-endian order.
pub open spec fn be_value_of(s: Seq<u8>) -> int
    recommends
        s.len() >= 4,
{
    be_value(s[0], s[1], s[2], s[3])
}

/// The unsigned 32-bit integer held big-endian by `s[at..at + 4]`.
pub open spec fn be_u32_at(s: Seq<u8>, at: int) -> u32
    recommends
        0 <= at && at + 4 <= s.len(),
{
    be_value(s[at], s[at + 1], s[at + 2], s[at + 3]) as u32
}

/// The four bytes of `v` in big-endian order, most significant first.
pub open spec fn be_bytes(v: u32) -> Seq<u8> {
    seq![
        (v / 0x100_0000) as u8,
        ((v / 0x1_0000) % 0x100) as u8,
        ((v / 0x100) % 0x100) as u8,
        (v % 0x100) as u8,
    ]
}

/// Decoding the big-endian bytes of a value gives the value back.
pub proof fn lemma_be_bytes_value(v: u32)
    ensures
        be_bytes(v).len() == 4,
        be_value_of(be_bytes(v)) == v,
{
    let b0 = (v / 0x100_0000) as u8;
    let b1 = ((v / 0x1_0000) % 0x100) as u8;
    let b2 = ((v / 0x100) % 0x100) as u8;
    let b3 = (v % 0x100) as u8;
    assert(b0 * 0x100_0000 + b1 * 0x1_0000 + b2 * 0x100 + b3 == v) by (nonlinear_arith)
        requires
            b0 == v / 0x100_0000,
            b1 == (v / 0x1_0000) % 0x100,
            b2 == (v / 0x100) % 0x100,
            b3 == v % 0x100,
    ;
}

/// Encoding the value of four bytes gives the same four bytes back.
pub proof fn lemma_be_value_bytes(b0: u8, b1: u8, b2: u8, b3: u8)
    ensures
        0 <= be_value(b0, b1, b2, b3) <= u32::MAX,
        be_bytes(be_value(b0, b1, b2, b3) as u32) == seq![b0, b1, b2, b3],
{
    let v = be_value(b0, b1, b2, b3);
    assert(0 <= v <= u32::MAX && v / 0x100_0000 == b0 && (v / 0x1_0000) % 0x100 == b1 && (v
        / 0x100) % 0x100 == b2 && v % 0x100 == b3) by (nonlinear_arith)
        requires
            v == b0 * 0x100_0000 + b1 * 0x1_0000 + b2 * 0x100 + b3,
            0 <= b0 < 256,
            0 <= b1 < 256,
            0 <= b2 < 256,
            0 <= b3 < 256,
    ;
    assert(be_bytes(v as u32) =~= seq![b0, b1, b2, b3]);
}

/// Appends the four big-endian bytes of `v` to `buf`.
pub fn push_u32_be(buf: &mut Vec<u8>, v: u32)
    ensures
        final(buf)@ == old(buf)@ + be_bytes(v),
{
    let b0 = (v >> 24) as u8;
    let b1 = (v >> 16) as u8;
    let b2 = (v >> 8) as u8;
    let b3 = v as u8;
    assert(b0 == v / 0x100_0000 && b1 == (v / 0x1_0000) % 0x100 && b2 == (v / 0x100) % 0x100
        && b3 == v % 0x100) by (bit_vector)
        requires
            b0 == (v >> 24) as u8,
            b1 == (v >> 16) as u8,
            b2 == (v >> 8) as u8,
            b3 == v as u8,
    ;
    buf.push(b0);
    buf.push(b1);
    buf.push(b2);
    buf.push(b3);
    assert(final(buf)@ =~= old(buf)@ + be_bytes(v));
}

/// Reads the big-endian integer held by `bytes[at..at + 4]`.
pub fn read_u32_be(bytes: &[u8], at: usize) -> (r: u32)
    requires
        at + 4 <= bytes@.len(),
    ensures
        r == be_value(bytes@[at as int], bytes@[at + 1], bytes@[at + 2], bytes@[at + 3]),
{
    let b0 = bytes[at];
    let b1 = bytes[at + 1];
    let b2 = bytes[at + 2];
    let b3 = bytes[at + 3];
    let r = ((b0 as u32) << 24) | ((b1 as u32) << 16) | ((b2 as u32) << 8) | (b3 as u32);
    assert(r == b0 * 0x100_0000 + b1 * 0x1_0000 + b2 * 0x100 + b3) by (bit_vector)
        requires
            r == ((b0 as u32) << 24) | ((b1 as u32) << 16) | ((b2 as u32) << 8) | (b3 as u32),
    ;
    r
}

} // verus!
