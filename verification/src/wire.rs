//! Big-endian integer encodings and byte-buffer helpers shared by every codec.
use vstd::prelude::*;

verus! {

/// Big-endian bytes of a `u16`.
pub open spec fn be_u16(x: u16) -> Seq<u8> {
    seq![(x >> 8u16) as u8, (x & 0xffu16) as u8]
}

/// Big-endian bytes of a `u32`.
pub open spec fn be_u32(x: u32) -> Seq<u8> {
    seq![(x >> 24u32) as u8, ((x >> 16u32) & 0xffu32) as u8, ((x >> 8u32) & 0xffu32) as u8, (x & 0xffu32) as u8]
}

/// Big-endian bytes of a `u64`.
pub open spec fn be_u64(x: u64) -> Seq<u8> {
    seq![
        (x >> 56u64) as u8,
        ((x >> 48u64) & 0xffu64) as u8,
        ((x >> 40u64) & 0xffu64) as u8,
        ((x >> 32u64) & 0xffu64) as u8,
        ((x >> 24u64) & 0xffu64) as u8,
        ((x >> 16u64) & 0xffu64) as u8,
        ((x >> 8u64) & 0xffu64) as u8,
        (x & 0xffu64) as u8,
    ]
}

/// The `u16` whose big-endian bytes are `b0`, `b1`.
pub open spec fn u16_of(b0: u8, b1: u8) -> u16 {
    ((b0 as u16) << 8u16) | (b1 as u16)
}

/// The `u32` whose big-endian bytes are `b0` to `b3`.
pub open spec fn u32_of(b0: u8, b1: u8, b2: u8, b3: u8) -> u32 {
    ((b0 as u32) << 24u32) | ((b1 as u32) << 16u32) | ((b2 as u32) << 8u32) | (b3 as u32)
}

/// The `u64` whose big-endian bytes are `b0` to `b7`.
pub open spec fn u64_of(b0: u8, b1: u8, b2: u8, b3: u8, b4: u8, b5: u8, b6: u8, b7: u8) -> u64 {
    ((b0 as u64) << 56u64) | ((b1 as u64) << 48u64) | ((b2 as u64) << 40u64) | ((b3 as u64) << 32u64)
        | ((b4 as u64) << 24u64) | ((b5 as u64) << 16u64) | ((b6 as u64) << 8u64) | (b7 as u64)
}

/// The big-endian `u16` stored at index `i` of `s`.
pub open spec fn be_u16_at(s: Seq<u8>, i: int) -> u16 {
    u16_of(s[i], s[i + 1])
}

/// The big-endian `u32` stored at index `i` of `s`.
pub open spec fn be_u32_at(s: Seq<u8>, i: int) -> u32 {
    u32_of(s[i], s[i + 1], s[i + 2], s[i + 3])
}

/// The big-endian `u64` stored at index `i` of `s`.
pub open spec fn be_u64_at(s: Seq<u8>, i: int) -> u64 {
    u64_of(s[i], s[i + 1], s[i + 2], s[i + 3], s[i + 4], s[i + 5], s[i + 6], s[i + 7])
}

/// Reading back the big-endian bytes of a `u16` gives it.
pub proof fn lemma_be_u16_roundtrip(x: u16)
    ensures
        u16_of(be_u16(x)[0], be_u16(x)[1]) == x,
{
    assert(((((x >> 8u16) as u8) as u16) << 8u16) | (((x & 0xffu16) as u8) as u16) == x) by (bit_vector);
}

/// Reading back the big-endian bytes of a `u32` gives it.
pub proof fn lemma_be_u32_roundtrip(x: u32)
    ensures
        u32_of(be_u32(x)[0], be_u32(x)[1], be_u32(x)[2], be_u32(x)[3]) == x,
{
    assert(((((x >> 24u32) as u8) as u32) << 24u32) | (((((x >> 16u32) & 0xffu32) as u8) as u32) << 16u32)
        | (((((x >> 8u32) & 0xffu32) as u8) as u32) << 8u32) | (((x & 0xffu32) as u8) as u32) == x) by (bit_vector);
}

/// Reading back the big-endian bytes of a `u64` gives it.
pub proof fn lemma_be_u64_roundtrip(x: u64)
    ensures
        u64_of(be_u64(x)[0], be_u64(x)[1], be_u64(x)[2], be_u64(x)[3], be_u64(x)[4], be_u64(x)[5], be_u64(x)[6], be_u64(x)[7]) == x,
{
    assert(((((x >> 56u64) as u8) as u64) << 56u64) | (((((x >> 48u64) & 0xffu64) as u8) as u64) << 48u64)
        | (((((x >> 40u64) & 0xffu64) as u8) as u64) << 40u64) | (((((x >> 32u64) & 0xffu64) as u8) as u64) << 32u64)
        | (((((x >> 24u64) & 0xffu64) as u8) as u64) << 24u64) | (((((x >> 16u64) & 0xffu64) as u8) as u64) << 16u64)
        | (((((x >> 8u64) & 0xffu64) as u8) as u64) << 8u64) | (((x & 0xffu64) as u8) as u64) == x) by (bit_vector);
}

/// Reading back the bytes of `be_u16(x)` wherever they stand gives `x`.
pub proof fn lemma_read_u16(t: Seq<u8>, i: int, x: u16)
    requires
        0 <= i,
        i + 2 <= t.len(),
        t.subrange(i, i + 2) == be_u16(x),
    ensures
        be_u16_at(t, i) == x,
{
    assert(t[i] == t.subrange(i, i + 2)[0]);
    assert(t[i + 1] == t.subrange(i, i + 2)[1]);
    lemma_be_u16_roundtrip(x);
}

/// Reading back the bytes of `be_u32(x)` wherever they stand gives `x`.
pub proof fn lemma_read_u32(t: Seq<u8>, i: int, x: u32)
    requires
        0 <= i,
        i + 4 <= t.len(),
        t.subrange(i, i + 4) == be_u32(x),
    ensures
        be_u32_at(t, i) == x,
{
    let w = t.subrange(i, i + 4);
    assert(t[i] == w[0] && t[i + 1] == w[1] && t[i + 2] == w[2] && t[i + 3] == w[3]);
    lemma_be_u32_roundtrip(x);
}

/// Reading back the bytes of `be_u64(x)` wherever they stand gives `x`.
pub proof fn lemma_read_u64(t: Seq<u8>, i: int, x: u64)
    requires
        0 <= i,
        i + 8 <= t.len(),
        t.subrange(i, i + 8) == be_u64(x),
    ensures
        be_u64_at(t, i) == x,
{
    let w = t.subrange(i, i + 8);
    assert(t[i] == w[0] && t[i + 1] == w[1] && t[i + 2] == w[2] && t[i + 3] == w[3]);
    assert(t[i + 4] == w[4] && t[i + 5] == w[5] && t[i + 6] == w[6] && t[i + 7] == w[7]);
    lemma_be_u64_roundtrip(x);
}

/// Reads the big-endian `u16` at `pos`.
pub fn get_u16(s: &[u8], pos: usize) -> (x: u16)
    requires
        pos + 2 <= s@.len(),
    ensures
        x == be_u16_at(s@, pos as int),
{
    ((s[pos] as u16) << 8u16) | (s[pos + 1] as u16)
}

/// Reads the big-endian `u32` at `pos`.
pub fn get_u32(s: &[u8], pos: usize) -> (x: u32)
    requires
        pos + 4 <= s@.len(),
    ensures
        x == be_u32_at(s@, pos as int),
{
    ((s[pos] as u32) << 24u32) | ((s[pos + 1] as u32) << 16u32) | ((s[pos + 2] as u32) << 8u32) | (s[pos + 3] as u32)
}

/// Reads the big-endian `u64` at `pos`.
pub fn get_u64(s: &[u8], pos: usize) -> (x: u64)
    requires
        pos + 8 <= s@.len(),
    ensures
        x == be_u64_at(s@, pos as int),
{
    ((s[pos] as u64) << 56u64) | ((s[pos + 1] as u64) << 48u64) | ((s[pos + 2] as u64) << 40u64)
        | ((s[pos + 3] as u64) << 32u64) | ((s[pos + 4] as u64) << 24u64) | ((s[pos + 5] as u64) << 16u64)
        | ((s[pos + 6] as u64) << 8u64) | (s[pos + 7] as u64)
}

/// Appends the big-endian bytes of `x`.
pub fn put_u16(buf: &mut Vec<u8>, x: u16)
    ensures
        final(buf)@ == old(buf)@ + be_u16(x),
{
    buf.push((x >> 8u16) as u8);
    buf.push((x & 0xffu16) as u8);
    assert(buf@ =~= old(buf)@ + be_u16(x));
}

/// Appends the big-endian bytes of `x`.
pub fn put_u32(buf: &mut Vec<u8>, x: u32)
    ensures
        final(buf)@ == old(buf)@ + be_u32(x),
{
    buf.push((x >> 24u32) as u8);
    buf.push(((x >> 16u32) & 0xffu32) as u8);
    buf.push(((x >> 8u32) & 0xffu32) as u8);
    buf.push((x & 0xffu32) as u8);
    assert(buf@ =~= old(buf)@ + be_u32(x));
}

/// Appends the big-endian bytes of `x`.
pub fn put_u64(buf: &mut Vec<u8>, x: u64)
    ensures
        final(buf)@ == old(buf)@ + be_u64(x),
{
    buf.push((x >> 56u64) as u8);
    buf.push(((x >> 48u64) & 0xffu64) as u8);
    buf.push(((x >> 40u64) & 0xffu64) as u8);
    buf.push(((x >> 32u64) & 0xffu64) as u8);
    buf.push(((x >> 24u64) & 0xffu64) as u8);
    buf.push(((x >> 16u64) & 0xffu64) as u8);
    buf.push(((x >> 8u64) & 0xffu64) as u8);
    buf.push((x & 0xffu64) as u8);
    assert(buf@ =~= old(buf)@ + be_u64(x));
}

/// Appends every byte of `src`.
pub fn put_slice(buf: &mut Vec<u8>, src: &[u8])
    ensures
        final(buf)@ == old(buf)@ + src@,
{
    let n = src.len();
    let mut i: usize = 0;
    while i < n
        invariant
            n == src@.len(),
            i <= n,
            buf@ == old(buf)@ + src@.subrange(0, i as int),
        decreases n - i,
    {
        buf.push(src[i]);
        assert(src@.subrange(0, (i + 1) as int) =~= src@.subrange(0, i as int).push(src@[i as int]));
        i = i + 1;
    }
    assert(src@.subrange(0, n as int) =~= src@);
}

/// Copies the bytes `s[from..to]` into a new vector.
pub fn copy_range(s: &[u8], from: usize, to: usize) -> (res: Vec<u8>)
    requires
        from <= to <= s@.len(),
    ensures
        res@ == s@.subrange(from as int, to as int),
{
    let mut res: Vec<u8> = Vec::new();
    let mut i: usize = from;
    while i < to
        invariant
            from <= i <= to <= s@.len(),
            res@ == s@.subrange(from as int, i as int),
        decreases to - i,
    {
        res.push(s[i]);
        assert(s@.subrange(from as int, (i + 1) as int) =~= s@.subrange(from as int, i as int).push(s@[i as int]));
        i = i + 1;
    }
    res
}

/// Drops the first `n` bytes of `buf`.
pub fn drop_front(buf: &mut Vec<u8>, n: usize)
    requires
        n <= old(buf)@.len(),
    ensures
        final(buf)@ == old(buf)@.skip(n as int),
{
    let len = buf.len();
    let rest = copy_range(buf.as_slice(), n, len);
    *buf = rest;
}

} // verus!
