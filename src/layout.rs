//! Byte-level layout of the Mach-O records that the walkers read, in the
//! host's (little-endian) byte order.

use vstd::prelude::*;

verus! {

/// Magic of a 32-bit Mach-O header.
pub const MH_MAGIC: u32 = 0xfeedface;

/// Magic of a 64-bit Mach-O header.
pub const MH_MAGIC_64: u32 = 0xfeedfacf;

/// Load-command tag of a 32-bit segment command.
pub const LC_SEGMENT: u32 = 0x1;

/// Load-command tag of a 64-bit segment command.
pub const LC_SEGMENT_64: u32 = 0x19;

/// Width of the fixed, NUL-padded name fields of segments and sections.
pub const NAME_LEN: usize = 16;

/// The little-endian `u32` stored at `off`.
pub open spec fn le_u32(s: Seq<u8>, off: int) -> u32 {
    (s[off] as int + s[off + 1] as int * 0x100 + s[off + 2] as int * 0x1_0000 + s[off + 3] as int
        * 0x100_0000) as u32
}

/// The little-endian `u64` stored at `off`.
pub open spec fn le_u64(s: Seq<u8>, off: int) -> u64 {
    (le_u32(s, off) as int + le_u32(s, off + 4) as int * 0x1_0000_0000) as u64
}

/// Reads the little-endian `u32` at `off`.
pub fn read_u32(s: &[u8], off: usize) -> (r: u32)
    requires
        off + 4 <= s.len(),
    ensures
        r == le_u32(s@, off as int),
{
    let b0 = s[off] as u32;
    let b1 = s[off + 1] as u32;
    let b2 = s[off + 2] as u32;
    let b3 = s[off + 3] as u32;
    b0 + b1 * 0x100 + b2 * 0x1_0000 + b3 * 0x100_0000
}

/// Reads the little-endian `u64` at `off`.
pub fn read_u64(s: &[u8], off: usize) -> (r: u64)
    requires
        off + 8 <= s.len(),
    ensures
        r == le_u64(s@, off as int),
{
    let lo = read_u32(s, off) as u64;
    let hi = read_u32(s, off + 4) as u64;
    lo + hi * 0x1_0000_0000
}

/// Index of the first NUL of `f` at or after `i`, or `f.len()` where there is none.
pub open spec fn nul_from(f: Seq<u8>, i: int) -> int
    decreases f.len() - i,
{
    if i >= f.len() {
        f.len() as int
    } else if f[i] == 0 {
        i
    } else {
        nul_from(f, i + 1)
    }
}

/// The C string held in a NUL-padded field: its bytes up to the first NUL,
/// or the whole field where it has none.
pub open spec fn c_str(f: Seq<u8>) -> Seq<u8> {
    f.take(nul_from(f, 0))
}

/// The C string held in the `NAME_LEN`-byte field at `off`, borrowed from `s`.
pub fn name_at<'a>(s: &'a [u8], off: usize) -> (r: &'a [u8])
    requires
        off + NAME_LEN <= s@.len(),
    ensures
        r@ == c_str(s@.subrange(off as int, off + NAME_LEN)),
{
    let ghost f = s@.subrange(off as int, off + NAME_LEN);
    let n = s.len();
    let mut i: usize = 0;
    while i < NAME_LEN && s[off + i] != 0
        invariant
            i <= NAME_LEN,
            off + NAME_LEN <= n,
            n == s@.len(),
            f == s@.subrange(off as int, off + NAME_LEN),
            nul_from(f, 0) == nul_from(f, i as int),
        decreases NAME_LEN - i,
    {
        i = i + 1;
    }
    assert(f.len() == NAME_LEN);
    assert(i < NAME_LEN ==> f[i as int] == s@[off + i]);
    assert(nul_from(f, i as int) == i as int);
    let r = &s[off..off + i];
    assert(r@ =~= c_str(f));
    r
}

/// Whether `a` and `b` hold the same bytes.
pub fn bytes_eq(a: &[u8], b: &[u8]) -> (r: bool)
    ensures
        r == (a@ == b@),
{
    if a.len() != b.len() {
        return false;
    }
    let mut i: usize = 0;
    while i < a.len()
        invariant
            i <= a@.len(),
            a@.len() == b@.len(),
            forall|j: int| 0 <= j < i ==> a@[j] == b@[j],
        decreases a@.len() - i,
    {
        if a[i] != b[i] {
            return false;
        }
        i = i + 1;
    }
    assert(a@ =~= b@);
    true
}

} // verus!
