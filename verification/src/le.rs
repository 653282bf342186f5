//! Little-endian interpretation of byte windows.
//!
//! Every multi-byte field of the archive format is stored little-endian,
//! including the packed 40-bit and 24-bit fields, which occupy exactly 5 and
//! 3 bytes and are zero-extended to their carrier integer.  The spec model is
//! `le_bytes_val`, the value of a byte sequence read least-significant byte
//! first; `le_at` applies it to a window of a larger sequence.

use vstd::prelude::*;

verus! {

/// The value of a byte sequence interpreted as a little-endian integer:
/// the first byte is the least significant.
pub open spec fn le_bytes_val(s: Seq<u8>) -> nat
    decreases s.len(),
{
    if s.len() == 0 {
        0
    } else {
        s[0] as nat + 256 * le_bytes_val(s.subrange(1, s.len() as int))
    }
}

/// The little-endian value of the `n`-byte window of `s` starting at `off`.
pub open spec fn le_at(s: Seq<u8>, off: int, n: int) -> nat
    recommends
        0 <= off,
        0 <= n,
        off + n <= s.len(),
{
    le_bytes_val(s.subrange(off, off + n))
}

/// 256 to the power `n`: the exclusive upper bound of an `n`-byte value.
pub open spec fn pow256(n: nat) -> nat
    decreases n,
{
    if n == 0 {
        1
    } else {
        256 * pow256((n - 1) as nat)
    }
}

pub proof fn lemma_pow256_values()
    ensures
        pow256(0) == 1,
        pow256(1) == 0x100,
        pow256(2) == 0x1_0000,
        pow256(3) == 0x100_0000,
        pow256(4) == 0x1_0000_0000,
        pow256(5) == 0x100_0000_0000,
        pow256(6) == 0x1_0000_0000_0000,
        pow256(7) == 0x100_0000_0000_0000,
        pow256(8) == 0x1_0000_0000_0000_0000,
{
    assert(pow256(0) == 1);
    assert(pow256(1) == 0x100);
    assert(pow256(2) == 0x1_0000);
    assert(pow256(3) == 0x100_0000);
    assert(pow256(4) == 0x1_0000_0000);
    assert(pow256(5) == 0x100_0000_0000);
    assert(pow256(6) == 0x1_0000_0000_0000);
    assert(pow256(7) == 0x100_0000_0000_0000);
    assert(pow256(8) == 0x1_0000_0000_0000_0000);
}

pub proof fn lemma_pow256_mono(a: nat, b: nat)
    requires
        a <= b,
    ensures
        pow256(a) <= pow256(b),
    decreases b - a,
{
    if a < b {
        lemma_pow256_mono(a, (b - 1) as nat);
    }
}

/// A byte sequence's little-endian value is bounded by 256 to its length.
pub proof fn lemma_le_bytes_val_bound(s: Seq<u8>)
    ensures
        le_bytes_val(s) < pow256(s.len()),
    decreases s.len(),
{
    if s.len() > 0 {
        lemma_le_bytes_val_bound(s.subrange(1, s.len() as int));
    }
}

/// An `n`-byte window's value is below 256 to the `n`.
pub proof fn lemma_le_at_bound(s: Seq<u8>, off: int, n: int)
    requires
        0 <= off,
        0 <= n,
        off + n <= s.len(),
    ensures
        le_at(s, off, n) < pow256(n as nat),
{
    lemma_le_bytes_val_bound(s.subrange(off, off + n));
}

/// Peeling one byte off the front of a window.
pub proof fn lemma_le_at_unfold(s: Seq<u8>, off: int, n: int)
    requires
        0 <= off,
        1 <= n,
        off + n <= s.len(),
    ensures
        le_at(s, off, n) == s[off] + 256 * le_at(s, off + 1, n - 1),
{
    assert(s.subrange(off, off + n).subrange(1, n) =~= s.subrange(off + 1, off + n));
}

/// Reads the `n`-byte little-endian integer at `off`, for `n` up to 8.
pub fn read_le_at(data: &[u8], off: usize, n: usize) -> (r: u64)
    requires
        n <= 8,
        off + n <= data@.len(),
    ensures
        r as nat == le_at(data@, off as int, n as int),
        (r as nat) < pow256(n as nat),
{
    proof {
        lemma_pow256_values();
    }
    let len = data.len();
    let mut acc: u64 = 0;
    let mut i: usize = n;
    while i > 0
        invariant
            i <= n,
            n <= 8,
            off + n <= len,
            len == data@.len(),
            acc as nat == le_at(data@, off + i, (n - i) as int),
            (acc as nat) < pow256((n - i) as nat),
        decreases i,
    {
        i = i - 1;
        proof {
            lemma_le_at_unfold(data@, off + i, (n - i) as int);
            lemma_pow256_mono((n - i - 1) as nat, 7);
            lemma_pow256_values();
        }
        acc = data[off + i] as u64 + 256 * acc;
    }
    acc
}

/// Reads the byte at `off`.
pub fn read_u8_at(data: &[u8], off: usize) -> (r: u8)
    requires
        off < data@.len(),
    ensures
        r == data@[off as int],
{
    data[off]
}

/// Reads a little-endian 16-bit integer.
pub fn read_u16_at(data: &[u8], off: usize) -> (r: u16)
    requires
        off + 2 <= data@.len(),
    ensures
        r as nat == le_at(data@, off as int, 2),
{
    proof {
        lemma_pow256_values();
    }
    read_le_at(data, off, 2) as u16
}

/// Reads a little-endian 32-bit integer.
pub fn read_u32_at(data: &[u8], off: usize) -> (r: u32)
    requires
        off + 4 <= data@.len(),
    ensures
        r as nat == le_at(data@, off as int, 4),
{
    proof {
        lemma_pow256_values();
    }
    read_le_at(data, off, 4) as u32
}

/// Reads a little-endian 64-bit integer.
pub fn read_u64_at(data: &[u8], off: usize) -> (r: u64)
    requires
        off + 8 <= data@.len(),
    ensures
        r as nat == le_at(data@, off as int, 8),
{
    read_le_at(data, off, 8)
}

/// Reads the packed 40-bit hash field: five bytes, zero-extended to 64 bits.
pub fn read_u40_at(data: &[u8], off: usize) -> (r: u64)
    requires
        off + 5 <= data@.len(),
    ensures
        r as nat == le_at(data@, off as int, 5),
        (r as nat) < pow256(5),
{
    read_le_at(data, off, 5)
}

/// Reads the packed 24-bit metadata field: three bytes, zero-extended to 32 bits.
pub fn read_u24_at(data: &[u8], off: usize) -> (r: u32)
    requires
        off + 3 <= data@.len(),
    ensures
        r as nat == le_at(data@, off as int, 3),
        (r as nat) < pow256(3),
{
    proof {
        lemma_pow256_values();
    }
    read_le_at(data, off, 3) as u32
}

} // verus!
