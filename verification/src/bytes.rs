use vstd::prelude::*;

verus! {

/// Little-endian byte image of a 64-bit unsigned integer.
pub open spec fn spec_le_bytes_u64(x: u64) -> Seq<u8> {
    seq![
        (x & 0xff) as u8,
        ((x >> 8u64) & 0xff) as u8,
        ((x >> 16u64) & 0xff) as u8,
        ((x >> 24u64) & 0xff) as u8,
        ((x >> 32u64) & 0xff) as u8,
        ((x >> 40u64) & 0xff) as u8,
        ((x >> 48u64) & 0xff) as u8,
        ((x >> 56u64) & 0xff) as u8,
    ]
}

/// Little-endian byte image of a 64-bit signed integer (two's complement).
pub open spec fn spec_le_bytes_i64(x: i64) -> Seq<u8> {
    spec_le_bytes_u64(x as u64)
}

/// Little-endian byte image of a 32-bit unsigned integer.
pub open spec fn spec_le_bytes_u32(x: u32) -> Seq<u8> {
    seq![
        (x & 0xff) as u8,
        ((x >> 8u32) & 0xff) as u8,
        ((x >> 16u32) & 0xff) as u8,
        ((x >> 24u32) & 0xff) as u8,
    ]
}

/// Returns the little-endian bytes of `x`.
pub fn le_bytes_u64(x: u64) -> (r: Vec<u8>)
    ensures
        r@ == spec_le_bytes_u64(x),
{
    let mut r: Vec<u8> = Vec::new();
    r.push((x & 0xff) as u8);
    r.push(((x >> 8u64) & 0xff) as u8);
    r.push(((x >> 16u64) & 0xff) as u8);
    r.push(((x >> 24u64) & 0xff) as u8);
    r.push(((x >> 32u64) & 0xff) as u8);
    r.push(((x >> 40u64) & 0xff) as u8);
    r.push(((x >> 48u64) & 0xff) as u8);
    r.push(((x >> 56u64) & 0xff) as u8);
    assert(r@ =~= spec_le_bytes_u64(x));
    r
}

/// Returns the little-endian bytes of `x`.
pub fn le_bytes_i64(x: i64) -> (r: Vec<u8>)
    ensures
        r@ == spec_le_bytes_i64(x),
{
    le_bytes_u64(x as u64)
}

/// Returns the little-endian bytes of `x`.
pub fn le_bytes_u32(x: u32) -> (r: Vec<u8>)
    ensures
        r@ == spec_le_bytes_u32(x),
{
    let mut r: Vec<u8> = Vec::new();
    r.push((x & 0xff) as u8);
    r.push(((x >> 8u32) & 0xff) as u8);
    r.push(((x >> 16u32) & 0xff) as u8);
    r.push(((x >> 24u32) & 0xff) as u8);
    assert(r@ =~= spec_le_bytes_u32(x));
    r
}

/// Byte-wise equality of two fixed-size byte arrays.
pub fn bytes_eq<const N: usize>(a: &[u8; N], b: &[u8; N]) -> (r: bool)
    ensures
        r == (a@ == b@),
{
    let mut i: usize = 0;
    while i < N
        invariant
            a@.len() == N,
            b@.len() == N,
            i <= N,
            forall|j: int| 0 <= j < i ==> a@[j] == b@[j],
        decreases N - i,
    {
        if a[i] != b[i] {
            assert(a@[i as int] != b@[i as int]);
            return false;
        }
        i = i + 1;
    }
    assert(a@ =~= b@);
    true
}

/// Copies a byte slice into a fresh vector.
pub fn slice_to_vec(s: &[u8]) -> (r: Vec<u8>)
    ensures
        r@ == s@,
{
    let mut r: Vec<u8> = Vec::new();
    let mut i: usize = 0;
    while i < s.len()
        invariant
            i <= s@.len(),
            r@ == s@.subrange(0, i as int),
        decreases s@.len() - i,
    {
        r.push(s[i]);
        i = i + 1;
        assert(r@ =~= s@.subrange(0, i as int));
    }
    assert(s@.subrange(0, s@.len() as int) =~= s@);
    r
}

/// Appends the bytes of `s` to `v`.
pub fn append_bytes(v: &mut Vec<u8>, s: &[u8])
    ensures
        final(v)@ == old(v)@ + s@,
{
    let ghost start = v@;
    let mut i: usize = 0;
    while i < s.len()
        invariant
            i <= s@.len(),
            v@ == start + s@.subrange(0, i as int),
        decreases s@.len() - i,
    {
        v.push(s[i]);
        i = i + 1;
        assert(v@ =~= start + s@.subrange(0, i as int));
    }
    assert(s@.subrange(0, s@.len() as int) =~= s@);
}


/// The unsigned integer whose little-endian bytes are the first eight of `b`.
pub open spec fn spec_u64_from_le(b: Seq<u8>) -> int {
    b[0] + b[1] * 0x100 + b[2] * 0x1_0000 + b[3] * 0x100_0000 + b[4] * 0x1_0000_0000
        + b[5] * 0x100_0000_0000 + b[6] * 0x1_0000_0000_0000 + b[7] * 0x100_0000_0000_0000
}

/// Reads a little-endian `u64` from the eight bytes of `data` at `start`.
pub fn read_u64_le(data: &[u8], start: usize) -> (r: u64)
    requires
        start + 8 <= data@.len(),
    ensures
        r as int == spec_u64_from_le(data@.subrange(start as int, start + 8)),
{
    let ghost b = data@.subrange(start as int, start + 8);
    assert(b[0] == data@[start as int]);
    assert(b[7] == data@[start + 7]);
    let r = (data[start] as u64) + (data[start + 1] as u64) * 0x100 + (data[start + 2] as u64) * 0x1_0000
        + (data[start + 3] as u64) * 0x100_0000 + (data[start + 4] as u64) * 0x1_0000_0000
        + (data[start + 5] as u64) * 0x100_0000_0000 + (data[start + 6] as u64) * 0x1_0000_0000_0000
        + (data[start + 7] as u64) * 0x100_0000_0000_0000;
    r
}

} // verus!
