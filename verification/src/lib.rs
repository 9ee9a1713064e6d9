//! Jenkins "lookup3" hash: a small, fast, non-cryptographic 32-bit hash over
//! byte buffers, with adapter types (in [`hasher`]) that let it drive a hash
//! map.
//!
//! The hash value of a buffer is pinned down by the spec function
//! [`spec_jhash`], and [`jhash`] is proved to return exactly that value.

use vstd::prelude::*;

pub mod hasher;

verus! {

/// The base constant all three mixing registers start from.
pub const JHASH_INITVAL: u32 = 0xdeadbeef;

/// Circular left rotation of a 32-bit value by `k` bits, `0 < k < 32`.
pub open spec fn spec_rotl(x: u32, k: u32) -> u32
    recommends
        0 < k < 32,
{
    (x << k) | (x >> (32 - k) as u32)
}

/// Executable counterpart of [`spec_rotl`].
fn rotl(x: u32, k: u32) -> (r: u32)
    requires
        0 < k < 32,
    ensures
        r == spec_rotl(x, k),
{
    (x << k) | (x >> (32 - k))
}

/// One mix round: spreads the bits of the three registers across each other.
/// Six steps, each subtracting one register from another, folding in a
/// rotation of a third, and accumulating into a fourth; rotation amounts
/// 4, 6, 8, 16, 19, 4. All additions and subtractions wrap modulo 2^32.
pub open spec fn spec_mix(a0: u32, b0: u32, c0: u32) -> (u32, u32, u32) {
    let a = a0.wrapping_sub(c0);
    let a = a ^ spec_rotl(c0, 4);
    let c = c0.wrapping_add(b0);
    let b = b0.wrapping_sub(a);
    let b = b ^ spec_rotl(a, 6);
    let a = a.wrapping_add(c);
    let c = c.wrapping_sub(b);
    let c = c ^ spec_rotl(b, 8);
    let b = b.wrapping_add(a);
    let a = a.wrapping_sub(c);
    let a = a ^ spec_rotl(c, 16);
    let c = c.wrapping_add(b);
    let b = b.wrapping_sub(a);
    let b = b ^ spec_rotl(a, 19);
    let a = a.wrapping_add(c);
    let c = c.wrapping_sub(b);
    let c = c ^ spec_rotl(b, 4);
    let b = b.wrapping_add(a);
    (a, b, c)
}

/// The finalization round: seven steps of XOR followed by a wrapping
/// subtraction of a rotation, rotation amounts 14, 11, 25, 16, 4, 14, 24.
/// Run once per hash, after the tail bytes are folded in; register `c` of
/// the result is the hash value.
pub open spec fn spec_final(a0: u32, b0: u32, c0: u32) -> (u32, u32, u32) {
    let c = c0 ^ b0;
    let c = c.wrapping_sub(spec_rotl(b0, 14));
    let a = a0 ^ c;
    let a = a.wrapping_sub(spec_rotl(c, 11));
    let b = b0 ^ a;
    let b = b.wrapping_sub(spec_rotl(a, 25));
    let c = c ^ b;
    let c = c.wrapping_sub(spec_rotl(b, 16));
    let a = a ^ c;
    let a = a.wrapping_sub(spec_rotl(c, 4));
    let b = b ^ a;
    let b = b.wrapping_sub(spec_rotl(a, 14));
    let c = c ^ b;
    let c = c.wrapping_sub(spec_rotl(b, 24));
    (a, b, c)
}

/// Executable mix round; leaves the registers exactly as [`spec_mix`] says.
fn jhash_mix(oa: &mut u32, ob: &mut u32, oc: &mut u32)
    ensures
        (*final(oa), *final(ob), *final(oc)) == spec_mix(*old(oa), *old(ob), *old(oc)),
{
    let mut a = *oa;
    let mut b = *ob;
    let mut c = *oc;

    a = a.wrapping_sub(c);
    a ^= rotl(c, 4);
    c = c.wrapping_add(b);
    b = b.wrapping_sub(a);
    b ^= rotl(a, 6);
    a = a.wrapping_add(c);
    c = c.wrapping_sub(b);
    c ^= rotl(b, 8);
    b = b.wrapping_add(a);
    a = a.wrapping_sub(c);
    a ^= rotl(c, 16);
    c = c.wrapping_add(b);
    b = b.wrapping_sub(a);
    b ^= rotl(a, 19);
    a = a.wrapping_add(c);
    c = c.wrapping_sub(b);
    c ^= rotl(b, 4);
    b = b.wrapping_add(a);

    *oa = a;
    *ob = b;
    *oc = c;
}

/// Executable finalization round; leaves the registers exactly as
/// [`spec_final`] says.
fn jhash_final(oa: &mut u32, ob: &mut u32, oc: &mut u32)
    ensures
        (*final(oa), *final(ob), *final(oc)) == spec_final(*old(oa), *old(ob), *old(oc)),
{
    let mut a = *oa;
    let mut b = *ob;
    let mut c = *oc;

    c ^= b;
    c = c.wrapping_sub(rotl(b, 14));
    a ^= c;
    a = a.wrapping_sub(rotl(c, 11));
    b ^= a;
    b = b.wrapping_sub(rotl(a, 25));
    c ^= b;
    c = c.wrapping_sub(rotl(b, 16));
    a ^= c;
    a = a.wrapping_sub(rotl(c, 4));
    b ^= a;
    b = b.wrapping_sub(rotl(a, 14));
    c ^= b;
    c = c.wrapping_sub(rotl(b, 24));

    *oa = a;
    *ob = b;
    *oc = c;
}

/// The 32-bit word formed from four consecutive bytes of `s` starting at `i`,
/// assembled in little-endian order (lowest-addressed byte is least
/// significant). This order is fixed by the algorithm, independent of the
/// host's byte order.
pub open spec fn spec_le_word(s: Seq<u8>, i: int) -> u32
    recommends
        0 <= i,
        i + 4 <= s.len(),
{
    (s[i] + s[i + 1] * 0x100 + s[i + 2] * 0x10000 + s[i + 3] * 0x1000000) as u32
}

/// Reads the little-endian 32-bit word of `s` at offset `off`.
fn get_u32(s: &[u8], off: usize) -> (r: u32)
    requires
        off + 4 <= s@.len(),
    ensures
        r == spec_le_word(s@, off as int),
{
    let b0 = s[off] as u32;
    let b1 = s[off + 1] as u32;
    let b2 = s[off + 2] as u32;
    let b3 = s[off + 3] as u32;
    b0 + b1 * 0x100 + b2 * 0x10000 + b3 * 0x1000000
}

/// Folds the 0 to 12 bytes of `s` that remain at offset `off` into the
/// registers — tail bytes 8..=11 into `c`, 4..=7 into `b`, 0..=3 into `a`,
/// each at its little-endian byte position — then, if at least one byte
/// remained, runs the finalization round. The hash value is register `c`;
/// with no byte left, `c` is returned untouched (the empty-buffer case).
pub open spec fn spec_tail(s: Seq<u8>, off: int, a0: u32, b0: u32, c0: u32) -> u32
    recommends
        0 <= off <= s.len(),
        s.len() - off <= 12,
{
    let rem = s.len() - off;
    let c = if rem == 12 { c0.wrapping_add((s[off + 11] as u32) << 24) } else { c0 };
    let c = if rem >= 11 { c.wrapping_add((s[off + 10] as u32) << 16) } else { c };
    let c = if rem >= 10 { c.wrapping_add((s[off + 9] as u32) << 8) } else { c };
    let c = if rem >= 9 { c.wrapping_add(s[off + 8] as u32) } else { c };
    let b = if rem >= 8 { b0.wrapping_add((s[off + 7] as u32) << 24) } else { b0 };
    let b = if rem >= 7 { b.wrapping_add((s[off + 6] as u32) << 16) } else { b };
    let b = if rem >= 6 { b.wrapping_add((s[off + 5] as u32) << 8) } else { b };
    let b = if rem >= 5 { b.wrapping_add(s[off + 4] as u32) } else { b };
    let a = if rem >= 4 { a0.wrapping_add((s[off + 3] as u32) << 24) } else { a0 };
    let a = if rem >= 3 { a.wrapping_add((s[off + 2] as u32) << 16) } else { a };
    let a = if rem >= 2 { a.wrapping_add((s[off + 1] as u32) << 8) } else { a };
    let a = if rem >= 1 { a.wrapping_add(s[off] as u32) } else { a };
    if rem >= 1 {
        spec_final(a, b, c).2
    } else {
        c
    }
}

/// The hash value of `s`, continued from offset `off` with register values
/// `a`, `b`, `c`: while more than 12 bytes remain, folds three little-endian
/// words into the registers and runs a mix round; the tail is handled by
/// [`spec_tail`].
pub open spec fn spec_rounds(s: Seq<u8>, off: int, a: u32, b: u32, c: u32) -> u32
    recommends
        0 <= off <= s.len(),
    decreases s.len() - off,
{
    if s.len() - off > 12 {
        let a1 = a.wrapping_add(spec_le_word(s, off));
        let b1 = b.wrapping_add(spec_le_word(s, off + 4));
        let c1 = c.wrapping_add(spec_le_word(s, off + 8));
        let m = spec_mix(a1, b1, c1);
        spec_rounds(s, off + 12, m.0, m.1, m.2)
    } else {
        spec_tail(s, off, a, b, c)
    }
}

/// The Jenkins "lookup3" hash of the byte sequence `s` with seed `seed`:
/// all three registers start at `0xdeadbeef + len + seed` (wrapping, with
/// the length truncated to 32 bits), then the rounds of [`spec_rounds`] run
/// over the whole sequence.
pub open spec fn spec_jhash(s: Seq<u8>, seed: u32) -> u32 {
    let v = JHASH_INITVAL.wrapping_add(s.len() as u32).wrapping_add(seed);
    spec_rounds(s, 0, v, v, v)
}

/// Hashes an arbitrary sequence of bytes.
///
/// `initval` is a previous hash or an arbitrary value; chaining a prior hash
/// through it extends a hash over several buffers. The result is a pure
/// function of the bytes, their number and the seed — [`spec_jhash`] — so
/// two calls on equal arguments always return the same value.
pub fn jhash(key: &[u8], initval: u32) -> (r: u32)
    ensures
        r == spec_jhash(key@, initval),
{
    let length = key.len();

    let mut a = JHASH_INITVAL.wrapping_add(length as u32).wrapping_add(initval);
    let mut b = a;
    let mut c = a;

    let mut offset: usize = 0;
    while length - offset > 12
        invariant
            offset <= length,
            length == key@.len(),
            spec_rounds(key@, offset as int, a, b, c) == spec_jhash(key@, initval),
        decreases length - offset,
    {
        a = a.wrapping_add(get_u32(key, offset));
        b = b.wrapping_add(get_u32(key, offset + 4));
        c = c.wrapping_add(get_u32(key, offset + 8));

        jhash_mix(&mut a, &mut b, &mut c);
        offset += 12;
    }

    let ghost a0 = a;
    let ghost b0 = b;
    let ghost c0 = c;

    let remaining = length - offset;
    if remaining == 12 {
        c = c.wrapping_add((key[offset + 11] as u32) << 24);
    }
    if remaining >= 11 {
        c = c.wrapping_add((key[offset + 10] as u32) << 16);
    }
    if remaining >= 10 {
        c = c.wrapping_add((key[offset + 9] as u32) << 8);
    }
    if remaining >= 9 {
        c = c.wrapping_add(key[offset + 8] as u32);
    }

    if remaining >= 8 {
        b = b.wrapping_add((key[offset + 7] as u32) << 24);
    }
    if remaining >= 7 {
        b = b.wrapping_add((key[offset + 6] as u32) << 16);
    }
    if remaining >= 6 {
        b = b.wrapping_add((key[offset + 5] as u32) << 8);
    }
    if remaining >= 5 {
        b = b.wrapping_add(key[offset + 4] as u32);
    }

    if remaining >= 4 {
        a = a.wrapping_add((key[offset + 3] as u32) << 24);
    }
    if remaining >= 3 {
        a = a.wrapping_add((key[offset + 2] as u32) << 16);
    }
    if remaining >= 2 {
        a = a.wrapping_add((key[offset + 1] as u32) << 8);
    }
    if remaining >= 1 {
        a = a.wrapping_add(key[offset] as u32);
        jhash_final(&mut a, &mut b, &mut c);
    }

    assert(c == spec_tail(key@, offset as int, a0, b0, c0));
    c
}

/// Determinism: the hash is a function of the bytes and the seed alone, so
/// any two values that [`jhash`] may return for the same buffer and seed are
/// equal.
pub proof fn lemma_jhash_deterministic(s: Seq<u8>, seed: u32, r1: u32, r2: u32)
    requires
        r1 == spec_jhash(s, seed),
        r2 == spec_jhash(s, seed),
    ensures
        r1 == r2,
{
}

/// The empty buffer skips every mix and the finalization round: its hash is
/// the initial register value `0xdeadbeef + 0 + seed`, wrapping modulo 2^32.
pub proof fn lemma_jhash_empty(seed: u32)
    ensures
        spec_jhash(Seq::<u8>::empty(), seed) == JHASH_INITVAL.wrapping_add(seed),
{
}

} // verus!
