//! Big-endian byte views of unsigned integers.
use vstd::prelude::*;

verus! {

/// Byte `k` (0 = least significant) of the unsigned value `v`.
pub open spec fn byte_of(v: int, k: nat) -> u8
    decreases k,
{
    if k == 0 {
        (v % 256) as u8
    } else {
        byte_of(v / 256, (k - 1) as nat)
    }
}

/// The big-endian encoding of `v` on two bytes.
pub open spec fn be_u16(v: u16) -> Seq<u8> {
    seq![byte_of(v as int, 1), byte_of(v as int, 0)]
}

/// The big-endian encoding of `v` on four bytes.
pub open spec fn be_u32(v: u32) -> Seq<u8> {
    seq![byte_of(v as int, 3), byte_of(v as int, 2), byte_of(v as int, 1), byte_of(v as int, 0)]
}

/// The three least significant bytes of `v`, in big-endian order.
pub open spec fn be_low24(v: u32) -> Seq<u8> {
    seq![byte_of(v as int, 2), byte_of(v as int, 1), byte_of(v as int, 0)]
}

/// Reassembles the big-endian byte sequence `s` into the number it denotes.
pub open spec fn be_value(s: Seq<u8>) -> int
    decreases s.len(),
{
    if s.len() == 0 {
        0
    } else {
        be_value(s.drop_last()) * 256 + s.last()
    }
}

/// Splits `v` into its four bytes, most significant first.
pub fn u32_to_be(v: u32) -> (r: [u8; 4])
    ensures
        r@ == be_u32(v),
{
    let b3 = (v / 16777216) as u8;
    let b2 = ((v / 65536) % 256) as u8;
    let b1 = ((v / 256) % 256) as u8;
    let b0 = (v % 256) as u8;
    proof {
        reveal_with_fuel(byte_of, 4);
        assert(v as int / 256 / 256 == v as int / 65536);
        assert(v as int / 256 / 256 / 256 == v as int / 16777216);
    }
    let r = [b3, b2, b1, b0];
    assert(r@ =~= be_u32(v));
    r
}


/// Appending a byte shifts the value read so far by one byte.
pub proof fn lemma_be_value_push(s: Seq<u8>, b: u8)
    ensures
        be_value(s.push(b)) == be_value(s) * 256 + b,
{
    assert(s.push(b).drop_last() =~= s);
}

/// Reading two big-endian bytes back gives the value that they were made from.
pub proof fn lemma_be_u16_value(v: u16)
    ensures
        be_value(be_u16(v)) == v,
{
    reveal_with_fuel(byte_of, 2);
    let x = v as int;
    let e = Seq::<u8>::empty();
    assert(be_value(e) == 0);
    assert(be_u16(v) =~= e.push(byte_of(x, 1)).push(byte_of(x, 0)));
    lemma_be_value_push(e, byte_of(x, 1));
    lemma_be_value_push(e.push(byte_of(x, 1)), byte_of(x, 0));
    assert(x / 256 < 256);
}

/// Reading four big-endian bytes back gives the value that they were made from.
pub proof fn lemma_be_u32_value(v: u32)
    ensures
        be_value(be_u32(v)) == v,
{
    reveal_with_fuel(byte_of, 4);
    let x = v as int;
    let e = Seq::<u8>::empty();
    let s1 = e.push(byte_of(x, 3));
    let s2 = s1.push(byte_of(x, 2));
    let s3 = s2.push(byte_of(x, 1));
    assert(be_value(e) == 0);
    assert(be_u32(v) =~= s3.push(byte_of(x, 0)));
    lemma_be_value_push(e, byte_of(x, 3));
    lemma_be_value_push(s1, byte_of(x, 2));
    lemma_be_value_push(s2, byte_of(x, 1));
    lemma_be_value_push(s3, byte_of(x, 0));
    assert(x / 256 / 256 / 256 < 256);
}

/// Reading three big-endian bytes back gives the low 24 bits of the value that they
/// were taken from.
pub proof fn lemma_be_low24_value(v: u32)
    ensures
        be_value(be_low24(v)) == v % 0x100_0000,
{
    reveal_with_fuel(byte_of, 3);
    let x = v as int;
    let e = Seq::<u8>::empty();
    let s1 = e.push(byte_of(x, 2));
    let s2 = s1.push(byte_of(x, 1));
    assert(be_value(e) == 0);
    assert(be_low24(v) =~= s2.push(byte_of(x, 0)));
    lemma_be_value_push(e, byte_of(x, 2));
    lemma_be_value_push(s1, byte_of(x, 1));
    lemma_be_value_push(s2, byte_of(x, 0));
    assert(((x / 256 / 256) % 256 * 256 + (x / 256) % 256) * 256 + x % 256 == x % 0x100_0000);
}

} // verus!
