use vstd::prelude::*;

verus! {

/// High byte of a 16-bit value in network byte order.
pub open spec fn be16_hi(v: u16) -> u8 {
    (v / 256) as u8
}

/// Low byte of a 16-bit value in network byte order.
pub open spec fn be16_lo(v: u16) -> u8 {
    (v % 256) as u8
}

/// The 16-bit value two network-order bytes stand for.
pub open spec fn be16(hi: u8, lo: u8) -> u16 {
    (hi * 256 + lo) as u16
}

/// The 32-bit value four network-order bytes stand for.
pub open spec fn be32(b0: u8, b1: u8, b2: u8, b3: u8) -> u32 {
    (b0 * 0x100_0000 + b1 * 0x1_0000 + b2 * 256 + b3) as u32
}

/// Byte `i` (0 = most significant) of a 32-bit value in network byte order.
pub open spec fn be32_byte(v: u32, i: int) -> u8 {
    if i == 0 {
        (v / 0x100_0000) as u8
    } else if i == 1 {
        ((v / 0x1_0000) % 256) as u8
    } else if i == 2 {
        ((v / 256) % 256) as u8
    } else {
        (v % 256) as u8
    }
}

/// Splitting a 16-bit value into its two network-order bytes and reading
/// them back gives the value again, and reading two bytes as a value keeps
/// each byte recoverable.
pub proof fn lemma_be16_round_trip(v: u16, hi: u8, lo: u8)
    ensures
        be16(be16_hi(v), be16_lo(v)) == v,
        be16_hi(be16(hi, lo)) == hi,
        be16_lo(be16(hi, lo)) == lo,
{
}

/// Splitting a 32-bit value into its four network-order bytes and reading
/// them back gives the value again, and reading four bytes as a value keeps
/// each byte recoverable.
pub proof fn lemma_be32_round_trip(v: u32, b0: u8, b1: u8, b2: u8, b3: u8)
    ensures
        be32(be32_byte(v, 0), be32_byte(v, 1), be32_byte(v, 2), be32_byte(v, 3)) == v,
        be32_byte(be32(b0, b1, b2, b3), 0) == b0,
        be32_byte(be32(b0, b1, b2, b3), 1) == b1,
        be32_byte(be32(b0, b1, b2, b3), 2) == b2,
        be32_byte(be32(b0, b1, b2, b3), 3) == b3,
{
    assert((((v / 0x100_0000) as u8) as u32) * 0x100_0000
        + ((((v / 0x1_0000) % 256) as u8) as u32) * 0x1_0000
        + ((((v / 256) % 256) as u8) as u32) * 256
        + (((v % 256) as u8) as u32) == v) by (bit_vector);
    let w: u32 = be32(b0, b1, b2, b3);
    assert(w == (b0 as u32) * 0x100_0000 + (b1 as u32) * 0x1_0000 + (b2 as u32) * 256 + (b3 as u32));
    assert(w / 0x100_0000 == b0 as u32) by (bit_vector)
        requires w == (b0 as u32) * 0x100_0000 + (b1 as u32) * 0x1_0000 + (b2 as u32) * 256 + (b3 as u32);
    assert((w / 0x1_0000) % 256 == b1 as u32) by (bit_vector)
        requires w == (b0 as u32) * 0x100_0000 + (b1 as u32) * 0x1_0000 + (b2 as u32) * 256 + (b3 as u32);
    assert((w / 256) % 256 == b2 as u32) by (bit_vector)
        requires w == (b0 as u32) * 0x100_0000 + (b1 as u32) * 0x1_0000 + (b2 as u32) * 256 + (b3 as u32);
    assert(w % 256 == b3 as u32) by (bit_vector)
        requires w == (b0 as u32) * 0x100_0000 + (b1 as u32) * 0x1_0000 + (b2 as u32) * 256 + (b3 as u32);
}

/// Append the two network-order bytes of `v` to `buf`.
pub fn push_be16(buf: &mut Vec<u8>, v: u16)
    ensures
        final(buf)@ == old(buf)@ + seq![be16_hi(v), be16_lo(v)],
{
    buf.push((v / 256) as u8);
    buf.push((v % 256) as u8);
    assert(buf@ =~= old(buf)@ + seq![be16_hi(v), be16_lo(v)]);
}

/// Append the four network-order bytes of `v` to `buf`.
pub fn push_be32(buf: &mut Vec<u8>, v: u32)
    ensures
        final(buf)@ == old(buf)@ + seq![
            be32_byte(v, 0),
            be32_byte(v, 1),
            be32_byte(v, 2),
            be32_byte(v, 3),
        ],
{
    buf.push((v / 0x100_0000) as u8);
    buf.push(((v / 0x1_0000) % 256) as u8);
    buf.push(((v / 256) % 256) as u8);
    buf.push((v % 256) as u8);
    assert(buf@ =~= old(buf)@ + seq![
        be32_byte(v, 0),
        be32_byte(v, 1),
        be32_byte(v, 2),
        be32_byte(v, 3),
    ]);
}

/// Read the 16-bit network-order value at `at` in `data`.
pub fn read_be16(data: &[u8], at: usize) -> (r: u16)
    requires
        at + 2 <= data@.len(),
    ensures
        r == be16(data@[at as int], data@[at as int + 1]),
{
    (data[at] as u16) * 256 + (data[at + 1] as u16)
}

/// Read the 32-bit network-order value at `at` in `data`.
pub fn read_be32(data: &[u8], at: usize) -> (r: u32)
    requires
        at + 4 <= data@.len(),
    ensures
        r == be32(data@[at as int], data@[at as int + 1], data@[at as int + 2], data@[at as int + 3]),
{
    (data[at] as u32) * 0x100_0000 + (data[at + 1] as u32) * 0x1_0000 + (data[at + 2] as u32) * 256
        + (data[at + 3] as u32)
}

/// Append every byte of `src` to `buf`.
pub fn push_bytes(buf: &mut Vec<u8>, src: &[u8])
    ensures
        final(buf)@ == old(buf)@ + src@,
{
    let n = src.len();
    let mut i: usize = 0;
    while i < n
        invariant
            i <= n,
            n == src@.len(),
            buf@ == old(buf)@ + src@.take(i as int),
        decreases n - i,
    {
        buf.push(src[i]);
        i = i + 1;
        assert(buf@ =~= old(buf)@ + src@.take(i as int));
    }
    assert(buf@ =~= old(buf)@ + src@);
}

/// Append `n` zero bytes to `buf`.
pub fn push_zeros(buf: &mut Vec<u8>, n: usize)
    ensures
        final(buf)@ == old(buf)@ + Seq::new(n as nat, |i: int| 0u8),
{
    let mut i: usize = 0;
    proof {
        assert(buf@ =~= old(buf)@ + Seq::new(0nat, |j: int| 0u8));
    }
    while i < n
        invariant
            i <= n,
            buf@ == old(buf)@ + Seq::new(i as nat, |j: int| 0u8),
        decreases n - i,
    {
        buf.push(0);
        i = i + 1;
        assert(buf@ =~= old(buf)@ + Seq::new(i as nat, |j: int| 0u8));
    }
}

/// Copy the bytes of `data` from `from` (inclusive) to `to` (exclusive) into
/// a fresh vector.
pub fn copy_range(data: &[u8], from: usize, to: usize) -> (r: Vec<u8>)
    requires
        from <= to <= data@.len(),
    ensures
        r@ == data@.subrange(from as int, to as int),
{
    let mut out: Vec<u8> = Vec::new();
    let mut i: usize = from;
    while i < to
        invariant
            from <= i <= to <= data@.len(),
            out@ == data@.subrange(from as int, i as int),
        decreases to - i,
    {
        out.push(data[i]);
        i = i + 1;
        assert(out@ =~= data@.subrange(from as int, i as int));
    }
    out
}

} // verus!
