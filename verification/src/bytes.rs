//! Bounds-checked readers and writers for little-endian fields of a byte
//! region, together with the spec-level meaning of each access.

use vstd::prelude::*;

verus! {

/// Value of the 3-byte little-endian integer at `off`.
pub open spec fn spec_u24_le(s: Seq<u8>, off: int) -> int {
    s[off] + 0x100 * s[off + 1] + 0x1_0000 * s[off + 2]
}

/// Value of the 4-byte little-endian integer at `off`.
pub open spec fn spec_u32_le(s: Seq<u8>, off: int) -> int {
    s[off] + 0x100 * s[off + 1] + 0x1_0000 * s[off + 2] + 0x100_0000 * s[off + 3]
}

/// Value of the 8-byte little-endian integer at `off`.
pub open spec fn spec_u64_le(s: Seq<u8>, off: int) -> int {
    s[off] + 0x100 * s[off + 1] + 0x1_0000 * s[off + 2] + 0x100_0000 * s[off + 3]
        + 0x1_0000_0000 * s[off + 4] + 0x100_0000_0000 * s[off + 5]
        + 0x1_0000_0000_0000 * s[off + 6] + 0x100_0000_0000_0000 * s[off + 7]
}

/// `x` rounded up to the next multiple of 8.
pub open spec fn spec_align8(x: int) -> int {
    ((x + 7) / 8) * 8
}

pub proof fn lemma_align8_bounds(x: int)
    requires
        x >= 0,
    ensures
        x <= spec_align8(x) < x + 8,
        spec_align8(x) % 8 == 0,
{
    assert(x <= ((x + 7) / 8) * 8 < x + 8 && (((x + 7) / 8) * 8) % 8 == 0)
        by (nonlinear_arith)
        requires
            x >= 0,
    ;
}

pub fn round_up8(x: usize) -> (r: usize)
    requires
        x + 7 <= usize::MAX,
    ensures
        r == spec_align8(x as int),
{
    proof {
        lemma_align8_bounds(x as int);
    }
    ((x + 7) / 8) * 8
}

pub fn read_u24_le(v: &Vec<u8>, off: usize) -> (r: u32)
    requires
        off + 3 <= v@.len(),
    ensures
        r == spec_u24_le(v@, off as int),
{
    let _len: usize = v.len();
    (v[off] as u32) + 0x100 * (v[off + 1] as u32) + 0x1_0000 * (v[off + 2] as u32)
}

pub fn read_u32_le(v: &Vec<u8>, off: usize) -> (r: u32)
    requires
        off + 4 <= v@.len(),
    ensures
        r == spec_u32_le(v@, off as int),
{
    let _len: usize = v.len();
    (v[off] as u32) + 0x100 * (v[off + 1] as u32) + 0x1_0000 * (v[off + 2] as u32)
        + 0x100_0000 * (v[off + 3] as u32)
}

pub fn read_u64_le(v: &Vec<u8>, off: usize) -> (r: u64)
    requires
        off + 8 <= v@.len(),
    ensures
        r == spec_u64_le(v@, off as int),
{
    let _len: usize = v.len();
    (v[off] as u64) + 0x100 * (v[off + 1] as u64) + 0x1_0000 * (v[off + 2] as u64)
        + 0x100_0000 * (v[off + 3] as u64) + 0x1_0000_0000 * (v[off + 4] as u64)
        + 0x100_0000_0000 * (v[off + 5] as u64) + 0x1_0000_0000_0000 * (v[off + 6] as u64)
        + 0x100_0000_0000_0000 * (v[off + 7] as u64)
}

/// Writes `x` as 8 little-endian bytes at `off`, leaving every other byte as
/// it was.
pub fn write_u64_le(v: &mut Vec<u8>, off: usize, x: u64)
    requires
        off + 8 <= old(v)@.len(),
    ensures
        final(v)@.len() == old(v)@.len(),
        spec_u64_le(final(v)@, off as int) == x,
        forall|k: int|
            0 <= k < old(v)@.len() && !(off <= k < off + 8) ==> final(v)@[k] == old(v)@[k],
{
    let _len: usize = v.len();
    let x0: u64 = x;
    let b0: u8 = (x0 % 0x100) as u8;
    let x1: u64 = x0 / 0x100;
    let b1: u8 = (x1 % 0x100) as u8;
    let x2: u64 = x1 / 0x100;
    let b2: u8 = (x2 % 0x100) as u8;
    let x3: u64 = x2 / 0x100;
    let b3: u8 = (x3 % 0x100) as u8;
    let x4: u64 = x3 / 0x100;
    let b4: u8 = (x4 % 0x100) as u8;
    let x5: u64 = x4 / 0x100;
    let b5: u8 = (x5 % 0x100) as u8;
    let x6: u64 = x5 / 0x100;
    let b6: u8 = (x6 % 0x100) as u8;
    let x7: u64 = x6 / 0x100;
    let b7: u8 = (x7 % 0x100) as u8;
    v[off] = b0;
    v[off + 1] = b1;
    v[off + 2] = b2;
    v[off + 3] = b3;
    v[off + 4] = b4;
    v[off + 5] = b5;
    v[off + 6] = b6;
    v[off + 7] = b7;
    proof {
        assert(spec_u64_le(v@, off as int) == x);
    }
}

/// Copies `v[off .. off + n]` out into a fresh vector.
pub fn read_bytes(v: &Vec<u8>, off: usize, n: usize) -> (r: Vec<u8>)
    requires
        off + n <= v@.len(),
    ensures
        r@ == v@.subrange(off as int, off + n),
{
    let _len: usize = v.len();
    let mut r: Vec<u8> = Vec::new();
    let mut i: usize = 0;
    while i < n
        invariant
            i <= n,
            off + n <= usize::MAX,
            off + n <= v@.len(),
            r@.len() == i,
            forall|j: int| 0 <= j < i ==> r@[j] == v@[off + j],
        decreases n - i,
    {
        r.push(v[off + i]);
        i = i + 1;
    }
    proof {
        assert(r@ =~= v@.subrange(off as int, off + n));
    }
    r
}

/// Writes all of `src` into `dst` starting at `off`, leaving every byte
/// outside `[off, off + src.len())` as it was.
pub fn write_bytes(dst: &mut Vec<u8>, off: usize, src: &Vec<u8>)
    requires
        off + src@.len() <= old(dst)@.len(),
    ensures
        final(dst)@.len() == old(dst)@.len(),
        forall|j: int| 0 <= j < src@.len() ==> final(dst)@[off + j] == src@[j],
        forall|k: int|
            0 <= k < old(dst)@.len() && !(off <= k < off + src@.len())
                ==> final(dst)@[k] == old(dst)@[k],
{
    let _len: usize = dst.len();
    let n: usize = src.len();
    let mut i: usize = 0;
    while i < n
        invariant
            i <= n,
            n == src@.len(),
            off + n <= usize::MAX,
            off + n <= old(dst)@.len(),
            dst@.len() == old(dst)@.len(),
            forall|j: int| 0 <= j < i ==> dst@[off + j] == src@[j],
            forall|k: int|
                0 <= k < old(dst)@.len() && !(off <= k < off + i) ==> dst@[k] == old(dst)@[k],
        decreases n - i,
    {
        let b: u8 = src[i];
        dst[off + i] = b;
        i = i + 1;
    }
}

/// Zeroes the `n` bytes starting at `off`, leaving every other byte as it
/// was.
pub fn fill_zero(dst: &mut Vec<u8>, off: usize, n: usize)
    requires
        off + n <= old(dst)@.len(),
    ensures
        final(dst)@.len() == old(dst)@.len(),
        forall|j: int| 0 <= j < n ==> #[trigger] final(dst)@[off + j] == 0,
        forall|k: int|
            0 <= k < old(dst)@.len() && !(off <= k < off + n) ==> final(dst)@[k] == old(dst)@[k],
{
    let _len: usize = dst.len();
    let mut i: usize = 0;
    while i < n
        invariant
            i <= n,
            off + n <= usize::MAX,
            off + n <= old(dst)@.len(),
            dst@.len() == old(dst)@.len(),
            forall|j: int| 0 <= j < i ==> #[trigger] dst@[off + j] == 0,
            forall|k: int|
                0 <= k < old(dst)@.len() && !(off <= k < off + i) ==> dst@[k] == old(dst)@[k],
        decreases n - i,
    {
        dst[off + i] = 0;
        i = i + 1;
    }
}

/// Compares the `n` bytes at `a` with the `n` bytes at `b` within the same
/// region.
pub fn bytes_equal(v: &Vec<u8>, a: usize, b: usize, n: usize) -> (r: bool)
    requires
        a + n <= v@.len(),
        b + n <= v@.len(),
    ensures
        r <==> (forall|j: int| 0 <= j < n ==> #[trigger] v@[a + j] == v@[b + j]),
{
    let _len: usize = v.len();
    let mut i: usize = 0;
    while i < n
        invariant
            i <= n,
            a + n <= usize::MAX,
            b + n <= usize::MAX,
            a + n <= v@.len(),
            b + n <= v@.len(),
            forall|j: int| 0 <= j < i ==> #[trigger] v@[a + j] == v@[b + j],
        decreases n - i,
    {
        if v[a + i] != v[b + i] {
            proof {
                assert(v@[a + i] != v@[b + i]);
            }
            return false;
        }
        i = i + 1;
    }
    true
}

} // verus!
