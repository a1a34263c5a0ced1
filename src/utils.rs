//! Small arithmetic on addresses.
use vstd::prelude::*;

verus! {

/// `x` reduced into a byte, wrapping.
pub open spec fn wrap8(x: int) -> u8 {
    (x % 256) as u8
}

/// `x` reduced into a 16-bit address, wrapping.
pub open spec fn wrap16(x: int) -> u16 {
    (x % 0x10000) as u16
}

/// The little-endian 16-bit value of two bytes.
pub open spec fn word(lo: u8, hi: u8) -> u16 {
    (lo + 256 * hi) as u16
}

/// The page (high byte) of an address.
pub open spec fn page(addr: u16) -> int {
    (addr / 256) as int
}

/// Assembles a little-endian address from its first two bytes.
pub fn convert_addr(bytes: &[u8]) -> (r: u16)
    requires
        bytes@.len() >= 2,
    ensures
        r == word(bytes@[0], bytes@[1]),
{
    (bytes[1] as u16) * 256 + (bytes[0] as u16)
}

/// Whether adding `offset` to `addr` (wrapping at 0xFFFF) lands on
/// another page.
pub fn cross_boundary(addr: u16, offset: u8) -> (r: bool)
    ensures
        r == (page(addr) != page(wrap16(addr + offset))),
{
    addr / 256 != addr.wrapping_add(offset as u16) / 256
}

/// A vector of `n` zero bytes.
pub(crate) fn zeroed(n: usize) -> (r: Vec<u8>)
    ensures
        r@ == Seq::new(n as nat, |i: int| 0u8),
{
    let mut r: Vec<u8> = Vec::new();
    let mut i: usize = 0;
    while i < n
        invariant
            i <= n,
            r@ == Seq::new(i as nat, |j: int| 0u8),
        decreases n - i,
    {
        r.push(0);
        i = i + 1;
        assert(r@ =~= Seq::new(i as nat, |j: int| 0u8));
    }
    r
}

/// Overwrites the bytes of `dst` from index `at` on with `src`.
pub(crate) fn copy_into(dst: &mut Vec<u8>, at: usize, src: &[u8])
    requires
        at + src@.len() <= old(dst)@.len(),
    ensures
        final(dst)@ == old(dst)@.subrange(0, at as int) + src@ + old(dst)@.subrange(
            at + src@.len(),
            old(dst)@.len() as int,
        ),
{
    let n: usize = src.len();
    let len: usize = dst.len();
    let mut i: usize = 0;
    while i < n
        invariant
            n == src@.len(),
            len == old(dst)@.len(),
            at + n <= len,
            at + n <= old(dst)@.len(),
            i <= n,
            dst@.len() == old(dst)@.len(),
            dst@ =~= old(dst)@.subrange(0, at as int) + src@.subrange(0, i as int) + old(dst)@.subrange(
                at + i,
                old(dst)@.len() as int,
            ),
        decreases n - i,
    {
        dst.set(at + i, src[i]);
        i = i + 1;
        assert(dst@ =~= old(dst)@.subrange(0, at as int) + src@.subrange(0, i as int) + old(dst)@.subrange(
            at + i,
            old(dst)@.len() as int,
        ));
    }
    assert(src@.subrange(0, n as int) =~= src@);
}

} // verus!
