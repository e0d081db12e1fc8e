//! Big-endian integer encodings and the PFCP TLV layout, as mathematical
//! sequences of bytes, with executable readers proved against them.

use vstd::prelude::*;

verus! {

/// The two big-endian octets of a 16-bit value.
pub open spec fn be16(v: u16) -> Seq<u8> {
    seq![(v / 0x100) as u8, (v % 0x100) as u8]
}

/// The four big-endian octets of a 32-bit value.
pub open spec fn be32(v: u32) -> Seq<u8> {
    seq![
        (v / 0x100_0000) as u8,
        (v / 0x1_0000 % 0x100) as u8,
        (v / 0x100 % 0x100) as u8,
        (v % 0x100) as u8,
    ]
}

/// The eight big-endian octets of a 64-bit value.
pub open spec fn be64(v: u64) -> Seq<u8> {
    be32((v / 0x1_0000_0000) as u32) + be32((v % 0x1_0000_0000) as u32)
}

/// The value of two big-endian octets.
pub open spec fn u16_of(b0: u8, b1: u8) -> u16 {
    (b0 as int * 0x100 + b1 as int) as u16
}

/// The value of four big-endian octets.
pub open spec fn u32_of(b0: u8, b1: u8, b2: u8, b3: u8) -> u32 {
    (b0 as int * 0x100_0000 + b1 as int * 0x1_0000 + b2 as int * 0x100 + b3 as int) as u32
}

/// The value of eight big-endian octets starting at `off` in `s`.
pub open spec fn u64_at(s: Seq<u8>, off: int) -> u64 {
    (u32_of(s[off], s[off + 1], s[off + 2], s[off + 3]) as int * 0x1_0000_0000
        + u32_of(s[off + 4], s[off + 5], s[off + 6], s[off + 7]) as int) as u64
}

/// The value of two big-endian octets starting at `off` in `s`.
pub open spec fn u16_at(s: Seq<u8>, off: int) -> u16 {
    u16_of(s[off], s[off + 1])
}

/// The value of four big-endian octets starting at `off` in `s`.
pub open spec fn u32_at(s: Seq<u8>, off: int) -> u32 {
    u32_of(s[off], s[off + 1], s[off + 2], s[off + 3])
}

/// A PFCP information element in type-length-value form (TS 29.244 8.1.1):
/// the type and the length of the value, both as two octets, then the value.
/// A length beyond 16 bits is kept modulo 2^16, as a 16-bit field holds it.
pub open spec fn tlv(ie_type: u16, value: Seq<u8>) -> Seq<u8> {
    be16(ie_type) + be16((value.len() % 0x1_0000) as u16) + value
}

pub proof fn lemma_u16_roundtrip(v: u16)
    ensures
        be16(v).len() == 2,
        u16_of(be16(v)[0], be16(v)[1]) == v,
{
}

pub proof fn lemma_u32_roundtrip(v: u32)
    ensures
        be32(v).len() == 4,
        u32_of(be32(v)[0], be32(v)[1], be32(v)[2], be32(v)[3]) == v,
{
}

pub proof fn lemma_u64_roundtrip(v: u64)
    ensures
        be64(v).len() == 8,
        u64_at(be64(v), 0) == v,
{
    let hi = (v / 0x1_0000_0000) as u32;
    let lo = (v % 0x1_0000_0000) as u32;
    lemma_u32_roundtrip(hi);
    lemma_u32_roundtrip(lo);
    let b = be64(v);
    assert(b.subrange(0, 4) =~= be32(hi));
    assert(b.subrange(4, 8) =~= be32(lo));
    assert(u32_of(b[0], b[1], b[2], b[3]) == hi);
    assert(u32_of(b[4], b[5], b[6], b[7]) == lo);
    assert(hi as int * 0x1_0000_0000 + lo as int == v) by (nonlinear_arith)
        requires
            hi == v / 0x1_0000_0000,
            lo == v % 0x1_0000_0000,
    ;
}

/// Reads the big-endian 16-bit value at `off`.
pub fn read_u16(s: &[u8], off: usize) -> (r: u16)
    requires
        off + 2 <= s@.len(),
    ensures
        r == u16_at(s@, off as int),
{
    (s[off] as u16) * 0x100 + (s[off + 1] as u16)
}

/// Reads the big-endian 32-bit value at `off`.
pub fn read_u32(s: &[u8], off: usize) -> (r: u32)
    requires
        off + 4 <= s@.len(),
    ensures
        r == u32_at(s@, off as int),
{
    (s[off] as u32) * 0x100_0000 + (s[off + 1] as u32) * 0x1_0000 + (s[off + 2] as u32) * 0x100
        + (s[off + 3] as u32)
}

/// Reads the big-endian 64-bit value at `off`.
pub fn read_u64(s: &[u8], off: usize) -> (r: u64)
    requires
        off + 8 <= s@.len(),
    ensures
        r == u64_at(s@, off as int),
{
    let _n = s.len();
    let hi = read_u32(s, off) as u64;
    let lo = read_u32(s, off + 4) as u64;
    hi * 0x1_0000_0000 + lo
}

/// The two big-endian octets of `v`.
pub fn u16_bytes(v: u16) -> (r: [u8; 2])
    ensures
        r@ == be16(v),
{
    let r = [(v / 0x100) as u8, (v % 0x100) as u8];
    assert(r@ =~= be16(v));
    r
}

/// The four big-endian octets of `v`.
pub fn u32_bytes(v: u32) -> (r: [u8; 4])
    ensures
        r@ == be32(v),
{
    let r = [
        (v / 0x100_0000) as u8,
        (v / 0x1_0000 % 0x100) as u8,
        (v / 0x100 % 0x100) as u8,
        (v % 0x100) as u8,
    ];
    assert(r@ =~= be32(v));
    r
}

/// The eight big-endian octets of `v`.
pub fn u64_bytes(v: u64) -> (r: [u8; 8])
    ensures
        r@ == be64(v),
{
    let hi = (v / 0x1_0000_0000) as u32;
    let lo = (v % 0x1_0000_0000) as u32;
    let r = [
        (hi / 0x100_0000) as u8,
        (hi / 0x1_0000 % 0x100) as u8,
        (hi / 0x100 % 0x100) as u8,
        (hi % 0x100) as u8,
        (lo / 0x100_0000) as u8,
        (lo / 0x1_0000 % 0x100) as u8,
        (lo / 0x100 % 0x100) as u8,
        (lo % 0x100) as u8,
    ];
    assert(r@ =~= be64(v));
    r
}

/// The four octets at `off`, as an array.
pub fn read_arr4(s: &[u8], off: usize) -> (r: [u8; 4])
    requires
        off + 4 <= s@.len(),
    ensures
        r@ == s@.subrange(off as int, off + 4),
{
    let r = [s[off], s[off + 1], s[off + 2], s[off + 3]];
    assert(r@ =~= s@.subrange(off as int, off + 4));
    r
}

/// The sixteen octets at `off`, as an array.
pub fn read_arr16(s: &[u8], off: usize) -> (r: [u8; 16])
    requires
        off + 16 <= s@.len(),
    ensures
        r@ == s@.subrange(off as int, off + 16),
{
    let r = [
        s[off],
        s[off + 1],
        s[off + 2],
        s[off + 3],
        s[off + 4],
        s[off + 5],
        s[off + 6],
        s[off + 7],
        s[off + 8],
        s[off + 9],
        s[off + 10],
        s[off + 11],
        s[off + 12],
        s[off + 13],
        s[off + 14],
        s[off + 15],
    ];
    assert(r@ =~= s@.subrange(off as int, off + 16));
    r
}

/// The concatenation of `f` applied to each element of `s`, in order.
pub open spec fn concat_map<T>(s: Seq<T>, f: spec_fn(T) -> Seq<u8>) -> Seq<u8>
    decreases s.len(),
{
    if s.len() == 0 {
        Seq::empty()
    } else {
        concat_map(s.drop_last(), f) + f(s.last())
    }
}

/// One more element of a prefix adds its bytes at the end.
pub proof fn lemma_concat_map_step<T>(s: Seq<T>, f: spec_fn(T) -> Seq<u8>, i: int)
    requires
        0 <= i < s.len(),
    ensures
        concat_map(s.take(i + 1), f) == concat_map(s.take(i), f) + f(s[i]),
{
    assert(s.take(i + 1).drop_last() =~= s.take(i));
}

/// The bytes of a prefix are no longer than those of the whole sequence.
pub proof fn lemma_concat_map_prefix_len<T>(s: Seq<T>, f: spec_fn(T) -> Seq<u8>, i: int)
    requires
        0 <= i <= s.len(),
    ensures
        concat_map(s.take(i), f).len() <= concat_map(s, f).len(),
    decreases s.len(),
{
    if i < s.len() {
        assert(s.drop_last().take(i) =~= s.take(i));
        lemma_concat_map_prefix_len(s.drop_last(), f, i);
    } else {
        assert(s.take(i) =~= s);
    }
}

/// The bytes of one element are no longer than those of the whole sequence.
pub proof fn lemma_concat_map_elem_len<T>(s: Seq<T>, f: spec_fn(T) -> Seq<u8>, i: int)
    requires
        0 <= i < s.len(),
    ensures
        concat_map(s.take(i), f).len() + f(s[i]).len() <= concat_map(s, f).len(),
{
    lemma_concat_map_step(s, f, i);
    lemma_concat_map_prefix_len(s, f, i + 1);
}

} // verus!
