//! Fixed-width unsigned integers read out of a byte buffer.
use vstd::prelude::*;

verus! {

/// The big-endian value of `n` bytes of `s` starting at `p`.
pub open spec fn be_value(s: Seq<u8>, p: int, n: nat) -> nat
    decreases n,
{
    if n == 0 {
        0
    } else {
        be_value(s, p, (n - 1) as nat) * 256 + s[p + n - 1] as nat
    }
}

/// The little-endian value of the four bytes of `s` starting at `p`.
pub open spec fn le32_value(s: Seq<u8>, p: int) -> nat {
    s[p] as nat + s[p + 1] as nat * 0x100 + s[p + 2] as nat * 0x10000 + s[p + 3] as nat
        * 0x1000000
}

/// Reads a big-endian integer of two bytes.
pub fn read_be_u16(d: &[u8], p: usize) -> (r: u16)
    requires
        p + 2 <= d@.len(),
    ensures
        r as nat == be_value(d@, p as int, 2),
{
    reveal_with_fuel(be_value, 3);
    d[p] as u16 * 0x100 + d[p + 1] as u16
}

/// Reads a big-endian integer of three bytes.
pub fn read_be_u24(d: &[u8], p: usize) -> (r: u32)
    requires
        p + 3 <= d@.len(),
    ensures
        r as nat == be_value(d@, p as int, 3),
{
    reveal_with_fuel(be_value, 4);
    d[p] as u32 * 0x10000 + d[p + 1] as u32 * 0x100 + d[p + 2] as u32
}

/// Reads a big-endian integer of four bytes.
pub fn read_be_u32(d: &[u8], p: usize) -> (r: u32)
    requires
        p + 4 <= d@.len(),
    ensures
        r as nat == be_value(d@, p as int, 4),
{
    reveal_with_fuel(be_value, 5);
    d[p] as u32 * 0x1000000 + d[p + 1] as u32 * 0x10000 + d[p + 2] as u32 * 0x100
        + d[p + 3] as u32
}

/// Reads a big-endian integer of eight bytes.
pub fn read_be_u64(d: &[u8], p: usize) -> (r: u64)
    requires
        p + 8 <= d@.len(),
    ensures
        r as nat == be_value(d@, p as int, 8),
{
    reveal_with_fuel(be_value, 9);
    let len = d.len();
    let mut v: u64 = 0;
    let mut i: usize = 0;
    while i < 8
        invariant
            i <= 8,
            p + 8 <= d@.len(),
            len == d@.len(),
            v as nat == be_value(d@, p as int, i as nat),
            (v as nat) < pow256(i as nat),
        decreases 8 - i,
    {
        proof {
            lemma_pow256_step(i as nat);
        }
        v = v * 256 + d[p + i] as u64;
        i = i + 1;
    }
    v
}

/// 256 to the power `n`.
pub open spec fn pow256(n: nat) -> nat
    decreases n,
{
    if n == 0 {
        1
    } else {
        256 * pow256((n - 1) as nat)
    }
}

proof fn lemma_pow256_step(i: nat)
    requires
        i < 8,
    ensures
        pow256(i + 1) == 256 * pow256(i),
        pow256(i) <= 0x100000000000000,
{
    reveal_with_fuel(pow256, 9);
    assert(pow256(7) == 0x100000000000000);
    if i < 7 {
        assert(pow256(i) <= pow256(7)) by {
            lemma_pow256_mono(i, 7);
        }
    }
}

proof fn lemma_pow256_mono(a: nat, b: nat)
    requires
        a <= b,
    ensures
        pow256(a) <= pow256(b),
    decreases b - a,
{
    if a < b {
        lemma_pow256_mono(a, (b - 1) as nat);
    }
}

/// Reads a little-endian integer of four bytes.
pub fn read_le_u32(d: &[u8], p: usize) -> (r: u32)
    requires
        p + 4 <= d@.len(),
    ensures
        r as nat == le32_value(d@, p as int),
{
    d[p] as u32 + d[p + 1] as u32 * 0x100 + d[p + 2] as u32 * 0x10000 + d[p + 3] as u32
        * 0x1000000
}

} // verus!

verus! {

/// A copy of the bytes `d[a..b]`.
pub fn copy_range(d: &[u8], a: usize, b: usize) -> (r: Vec<u8>)
    requires
        a <= b <= d@.len(),
    ensures
        r@ == d@.subrange(a as int, b as int),
{
    let mut r: Vec<u8> = Vec::new();
    let mut i: usize = a;
    while i < b
        invariant
            a <= i <= b,
            b <= d@.len(),
            r@ == d@.subrange(a as int, i as int),
        decreases b - i,
    {
        r.push(d[i]);
        i = i + 1;
        assert(r@ =~= d@.subrange(a as int, i as int));
    }
    r
}

} // verus!
