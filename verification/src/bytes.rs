//! Little-endian integer encodings and small byte-vector utilities.

use vstd::prelude::*;

verus! {

/// The value of a 4-byte little-endian unsigned integer.
pub open spec fn u32_le(s: Seq<u8>) -> int
    recommends
        s.len() == 4,
{
    s[0] + s[1] * 0x100 + s[2] * 0x1_0000 + s[3] * 0x100_0000
}

/// The value of an 8-byte little-endian unsigned integer.
pub open spec fn u64_le(s: Seq<u8>) -> int
    recommends
        s.len() == 8,
{
    s[0] + s[1] * 0x100 + s[2] * 0x1_0000 + s[3] * 0x100_0000
        + s[4] * 0x1_0000_0000 + s[5] * 0x100_0000_0000
        + s[6] * 0x1_0000_0000_0000 + s[7] * 0x100_0000_0000_0000
}

/// The 8-byte little-endian encoding of a 64-bit unsigned integer.
pub open spec fn u64_le_bytes(x: u64) -> Seq<u8> {
    seq![
        (x & 0xff) as u8,
        ((x >> 8) & 0xff) as u8,
        ((x >> 16) & 0xff) as u8,
        ((x >> 24) & 0xff) as u8,
        ((x >> 32) & 0xff) as u8,
        ((x >> 40) & 0xff) as u8,
        ((x >> 48) & 0xff) as u8,
        ((x >> 56) & 0xff) as u8,
    ]
}

/// Whether a character is ASCII.
pub open spec fn char_is_ascii(c: char) -> bool {
    (c as u32) < 128
}

/// Whether every character of `s` is ASCII, so that its UTF-8 encoding is
/// one byte per character.
pub open spec fn seq_is_ascii(s: Seq<char>) -> bool {
    forall|i: int| 0 <= i < s.len() ==> char_is_ascii(#[trigger] s[i])
}

/// The UTF-8 encoding of an ASCII character sequence: one byte per
/// character.
pub open spec fn ascii_bytes(s: Seq<char>) -> Seq<u8> {
    Seq::new(s.len(), |i: int| (s[i] as u32) as u8)
}

/// Reads the 4-byte little-endian integer stored at `off`.
pub fn read_u32_le(data: &Vec<u8>, off: usize) -> (r: u32)
    requires
        off + 4 <= data@.len(),
    ensures
        r == u32_le(data@.subrange(off as int, off as int + 4)),
{
    let n: usize = data.len();
    proof {
        assert(off + 4 <= n);
    }
    data[off] as u32
        + (data[off + 1] as u32) * 0x100
        + (data[off + 2] as u32) * 0x1_0000
        + (data[off + 3] as u32) * 0x100_0000
}

/// Reads the 8-byte little-endian integer stored at `off`.
pub fn read_u64_le(data: &Vec<u8>, off: usize) -> (r: u64)
    requires
        off + 8 <= data@.len(),
    ensures
        r == u64_le(data@.subrange(off as int, off as int + 8)),
{
    let n: usize = data.len();
    proof {
        assert(off + 8 <= n);
    }
    data[off] as u64
        + (data[off + 1] as u64) * 0x100
        + (data[off + 2] as u64) * 0x1_0000
        + (data[off + 3] as u64) * 0x100_0000
        + (data[off + 4] as u64) * 0x1_0000_0000
        + (data[off + 5] as u64) * 0x100_0000_0000
        + (data[off + 6] as u64) * 0x1_0000_0000_0000
        + (data[off + 7] as u64) * 0x100_0000_0000_0000
}

/// Appends the 8-byte little-endian encoding of `x` to `out`.
pub fn push_u64_le(out: &mut Vec<u8>, x: u64)
    ensures
        final(out)@ == old(out)@ + u64_le_bytes(x),
{
    out.push((x & 0xff) as u8);
    out.push(((x >> 8) & 0xff) as u8);
    out.push(((x >> 16) & 0xff) as u8);
    out.push(((x >> 24) & 0xff) as u8);
    out.push(((x >> 32) & 0xff) as u8);
    out.push(((x >> 40) & 0xff) as u8);
    out.push(((x >> 48) & 0xff) as u8);
    out.push(((x >> 56) & 0xff) as u8);
    proof {
        assert(out@ =~= old(out)@ + u64_le_bytes(x));
    }
}

/// Copies `len` bytes of `data` starting at `start` into a fresh vector.
pub fn copy_range(data: &Vec<u8>, start: usize, len: usize) -> (r: Vec<u8>)
    requires
        start + len <= data@.len(),
    ensures
        r@ == data@.subrange(start as int, start as int + len as int),
{
    let n: usize = data.len();
    let mut r: Vec<u8> = Vec::new();
    let mut i: usize = 0;
    while i < len
        invariant
            start + len <= n && n == data@.len(),
            i <= len,
            r@ == data@.subrange(start as int, start as int + i as int),
        decreases len - i,
    {
        r.push(data[start + i]);
        i = i + 1;
        proof {
            assert(r@ =~= data@.subrange(start as int, start as int + i as int));
        }
    }
    r
}

/// Compares two byte vectors for equality of contents.
pub fn bytes_eq(a: &Vec<u8>, b: &Vec<u8>) -> (r: bool)
    ensures
        r == (a@ == b@),
{
    if a.len() != b.len() {
        return false;
    }
    let mut i: usize = 0;
    while i < a.len()
        invariant
            a@.len() == b@.len(),
            i <= a@.len(),
            forall|j: int| 0 <= j < i ==> a@[j] == b@[j],
        decreases a@.len() - i,
    {
        if a[i] != b[i] {
            return false;
        }
        i = i + 1;
    }
    proof {
        assert(a@ =~= b@);
    }
    true
}

/// Clones the contents of a byte vector.
pub fn clone_bytes(v: &Vec<u8>) -> (r: Vec<u8>)
    ensures
        r@ == v@,
{
    let mut r: Vec<u8> = Vec::new();
    let mut i: usize = 0;
    while i < v.len()
        invariant
            i <= v@.len(),
            r@ == v@.subrange(0, i as int),
        decreases v@.len() - i,
    {
        r.push(v[i]);
        i = i + 1;
        proof {
            assert(r@ =~= v@.subrange(0, i as int));
        }
    }
    proof {
        assert(v@.subrange(0, v@.len() as int) =~= v@);
    }
    r
}

} // verus!
