//! The hash by which the native package library keys names.

use vstd::arithmetic::div_mod::{
    lemma_add_mod_noop_right, lemma_mod_multiples_vanish, lemma_small_mod,
};
use vstd::prelude::*;

verus! {

/// The number that a byte adds to the hash. The byte is taken as a signed
/// 8-bit number and widened to 64 bits: one up to 0x7f counts as itself,
/// one above 0x7f as itself less 256, which in 64 bits without sign is
/// itself plus 2^64 - 256.
pub open spec fn widened(b: u8) -> u64 {
    if b <= 0x7f {
        b as u64
    } else {
        (0xffff_ffff_ffff_ff00 + b) as u64
    }
}

/// The hash of `bytes`: starting from zero, each byte in turn multiplies
/// the hash so far by 65599 and adds its own number, all wrapping at 64
/// bits.
pub open spec fn sdbm(bytes: Seq<u8>) -> u64
    decreases bytes.len(),
{
    if bytes.len() == 0 {
        0
    } else {
        sdbm(bytes.drop_last()).wrapping_mul(65599).wrapping_add(widened(bytes.last()))
    }
}

/// The number that a byte stands for when it is read as signed.
pub open spec fn signed(b: u8) -> int {
    if b <= 0x7f {
        b as int
    } else {
        b - 256
    }
}

/// One step of the hash in whole numbers: the hash so far times 65599,
/// plus the byte read as signed, reduced to the range of 64 bits.
pub proof fn step_is_modular(h: u64, b: u8)
    ensures
        h.wrapping_mul(65599).wrapping_add(widened(b)) == (h * 65599 + signed(b))
            % 0x1_0000_0000_0000_0000,
{
    let m: int = 0x1_0000_0000_0000_0000;
    let p: int = h * 65599;
    let w: int = widened(b) as int;
    let k: int = if b <= 0x7f {
        0
    } else {
        1
    };
    assert(w == m * k + signed(b));
    let r: int = p % m;
    assert(h.wrapping_mul(65599) == r);
    let sum: int = if r + w >= m {
        r + w - m
    } else {
        r + w
    };
    assert(h.wrapping_mul(65599).wrapping_add(widened(b)) == sum);
    lemma_small_mod(sum as nat, m as nat);
    lemma_mod_multiples_vanish(-1, r + w, m);
    assert(sum == (r + w) % m);
    lemma_add_mod_noop_right(w, p, m);
    assert((r + w) % m == (p + w) % m);
    lemma_mod_multiples_vanish(k, p + signed(b), m);
}

/// Computes the hash of `bytes`.
pub fn sdbm_hash(bytes: &[u8]) -> (h: u64)
    ensures
        h == sdbm(bytes@),
{
    let mut h: u64 = 0;
    let mut i: usize = 0;
    while i < bytes.len()
        invariant
            i <= bytes@.len(),
            h == sdbm(bytes@.subrange(0, i as int)),
        decreases bytes@.len() - i,
    {
        let b = bytes[i];
        let c: u64 = if b <= 0x7f {
            b as u64
        } else {
            0xffff_ffff_ffff_ff00 + b as u64
        };
        assert(bytes@.subrange(0, i + 1).drop_last() =~= bytes@.subrange(0, i as int));
        h = h.wrapping_mul(65599).wrapping_add(c);
        i += 1;
    }
    assert(bytes@.subrange(0, i as int) =~= bytes@);
    h
}

} // verus!
