use vstd::prelude::*;

verus! {

/// Sum of all bytes of a sequence, as an unbounded integer.
pub open spec fn sum_bytes(s: Seq<u8>) -> int
    decreases s.len(),
{
    if s.len() == 0 {
        0
    } else {
        sum_bytes(s.drop_last()) + s.last()
    }
}

/// An SMBIOS checksum is valid when the bytes of the covered span sum to
/// zero modulo 256.
pub open spec fn checksum_ok(s: Seq<u8>) -> bool {
    sum_bytes(s) % 256 == 0
}

/// The 16-bit little-endian value stored at offset `i`.
pub open spec fn le16(s: Seq<u8>, i: int) -> int
    recommends
        0 <= i,
        i + 2 <= s.len(),
{
    s[i] + 0x100 * s[i + 1]
}

/// The 32-bit little-endian value stored at offset `i`.
pub open spec fn le32(s: Seq<u8>, i: int) -> int
    recommends
        0 <= i,
        i + 4 <= s.len(),
{
    s[i] + 0x100 * s[i + 1] + 0x1_0000 * s[i + 2] + 0x100_0000 * s[i + 3]
}

/// The 64-bit little-endian value stored at offset `i`.
pub open spec fn le64(s: Seq<u8>, i: int) -> int
    recommends
        0 <= i,
        i + 8 <= s.len(),
{
    s[i] + 0x100 * s[i + 1] + 0x1_0000 * s[i + 2] + 0x100_0000 * s[i + 3]
        + 0x1_0000_0000 * s[i + 4] + 0x100_0000_0000 * s[i + 5]
        + 0x1_0000_0000_0000 * s[i + 6] + 0x100_0000_0000_0000 * s[i + 7]
}

proof fn lemma_sum_bytes_step(s: Seq<u8>, start: int, i: int)
    requires
        0 <= start <= i,
        i + 1 <= s.len(),
    ensures
        sum_bytes(s.subrange(start, i + 1)) == sum_bytes(s.subrange(start, i)) + s[i],
{
    let longer = s.subrange(start, i + 1);
    assert(longer.drop_last() =~= s.subrange(start, i));
    assert(longer.last() == s[i]);
}

/// Whether the bytes of `b[start..end]` sum to zero modulo 256.
pub fn checksum_over(b: &Vec<u8>, start: usize, end: usize) -> (r: bool)
    requires
        start <= end,
        end <= b@.len(),
        end - start <= 0x1_0000,
    ensures
        r == checksum_ok(b@.subrange(start as int, end as int)),
{
    let mut acc: u32 = 0;
    let mut i: usize = start;
    proof {
        assert(b@.subrange(start as int, start as int) =~= Seq::<u8>::empty());
    }
    while i < end
        invariant
            start <= i <= end,
            end <= b@.len(),
            end - start <= 0x1_0000,
            acc == sum_bytes(b@.subrange(start as int, i as int)),
            acc <= 255 * (i - start),
        decreases end - i,
    {
        proof {
            lemma_sum_bytes_step(b@, start as int, i as int);
        }
        acc = acc + b[i] as u32;
        i = i + 1;
    }
    acc % 256 == 0
}

/// A copy of `v[start..]` as an owned vector.
pub fn copy_tail(v: &Vec<u8>, start: usize) -> (r: Vec<u8>)
    requires
        start <= v@.len(),
    ensures
        r@ == v@.subrange(start as int, v@.len() as int),
{
    let mut out: Vec<u8> = Vec::new();
    let mut i: usize = start;
    while i < v.len()
        invariant
            start <= i <= v@.len(),
            out@ == v@.subrange(start as int, i as int),
        decreases v@.len() - i,
    {
        out.push(v[i]);
        proof {
            assert(out@ =~= v@.subrange(start as int, i + 1 as int));
        }
        i = i + 1;
    }
    out
}

/// Reads the 16-bit little-endian value at offset `i`.
pub fn read_le16(b: &Vec<u8>, i: usize) -> (r: u16)
    requires
        i + 2 <= b@.len(),
    ensures
        r as int == le16(b@, i as int),
{
    let _n: usize = b.len();
    b[i] as u16 + 0x100 * (b[i + 1] as u16)
}

/// Reads the 32-bit little-endian value at offset `i`.
pub fn read_le32(b: &Vec<u8>, i: usize) -> (r: u32)
    requires
        i + 4 <= b@.len(),
    ensures
        r as int == le32(b@, i as int),
{
    let _n: usize = b.len();
    b[i] as u32 + 0x100 * (b[i + 1] as u32) + 0x1_0000 * (b[i + 2] as u32)
        + 0x100_0000 * (b[i + 3] as u32)
}

/// Reads the 64-bit little-endian value at offset `i`.
pub fn read_le64(b: &Vec<u8>, i: usize) -> (r: u64)
    requires
        i + 8 <= b@.len(),
    ensures
        r as int == le64(b@, i as int),
{
    let _n: usize = b.len();
    b[i] as u64 + 0x100 * (b[i + 1] as u64) + 0x1_0000 * (b[i + 2] as u64)
        + 0x100_0000 * (b[i + 3] as u64) + 0x1_0000_0000 * (b[i + 4] as u64)
        + 0x100_0000_0000 * (b[i + 5] as u64) + 0x1_0000_0000_0000 * (b[i + 6] as u64)
        + 0x100_0000_0000_0000 * (b[i + 7] as u64)
}

} // verus!
