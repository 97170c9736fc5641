//! Little-endian byte representations of numbers.
//!
//! `le_bytes` and `le_decode` are the mathematical model: the former lays a
//! number down as bytes, low byte first, and the latter reads such a run of
//! bytes back. The executable `encode_le` and `decode_le_range` realize the
//! two directions, and the lemmas here show that encoding and decoding are
//! inverse to each other.

use vstd::prelude::*;
use vstd::arithmetic::div_mod::{
    lemma_fundamental_div_mod_converse, lemma_mod_breakdown, lemma_small_mod,
};

verus! {

/// The `n`-byte little-endian representation of `x`; only the low `n` bytes
/// of `x` are kept.
pub open spec fn le_bytes(x: nat, n: nat) -> Seq<u8>
    decreases n,
{
    if n == 0 {
        Seq::empty()
    } else {
        seq![(x % 256) as u8] + le_bytes(x / 256, (n - 1) as nat)
    }
}

/// The number that the little-endian byte sequence `s` represents.
pub open spec fn le_decode(s: Seq<u8>) -> nat
    decreases s.len(),
{
    if s.len() == 0 {
        0
    } else {
        s[0] as nat + 256 * le_decode(s.drop_first())
    }
}

/// 256 to the power `n`: the number of distinct `n`-byte representations.
pub open spec fn pow256(n: nat) -> nat
    decreases n,
{
    if n == 0 {
        1
    } else {
        256 * pow256((n - 1) as nat)
    }
}

/// A run of `n` zero bytes.
pub open spec fn zero_padding(n: nat) -> Seq<u8> {
    Seq::new(n, |i: int| 0u8)
}

pub proof fn lemma_le_bytes_len(x: nat, n: nat)
    ensures
        le_bytes(x, n).len() == n,
    decreases n,
{
    if n > 0 {
        lemma_le_bytes_len(x / 256, (n - 1) as nat);
    }
}

pub proof fn lemma_pow256_pos(n: nat)
    ensures
        pow256(n) >= 1,
    decreases n,
{
    if n > 0 {
        lemma_pow256_pos((n - 1) as nat);
    }
}

pub proof fn lemma_pow256_increases(m: nat, n: nat)
    requires
        m <= n,
    ensures
        pow256(m) <= pow256(n),
    decreases n,
{
    if m < n {
        lemma_pow256_increases(m, (n - 1) as nat);
        lemma_pow256_pos((n - 1) as nat);
    }
}

pub proof fn lemma_pow256_values()
    ensures
        pow256(1) == 0x100,
        pow256(2) == 0x1_0000,
        pow256(4) == 0x1_0000_0000,
        pow256(7) == 0x100_0000_0000_0000,
        pow256(8) == 0x1_0000_0000_0000_0000,
{
    reveal_with_fuel(pow256, 9);
}

/// A decoded number is always below the count of representations of that
/// many bytes.
pub proof fn lemma_le_decode_bound(s: Seq<u8>)
    ensures
        le_decode(s) < pow256(s.len()),
    decreases s.len(),
{
    if s.len() > 0 {
        lemma_le_decode_bound(s.drop_first());
    }
}

/// Decoding an encoded number gives the number back, truncated to the
/// encoded width.
pub proof fn lemma_le_decode_le_bytes(x: nat, n: nat)
    ensures
        le_decode(le_bytes(x, n)) == x % pow256(n),
    decreases n,
{
    lemma_le_bytes_len(x, n);
    if n == 0 {
        assert(x % 1 == 0);
    } else {
        let m = (n - 1) as nat;
        lemma_le_bytes_len(x / 256, m);
        lemma_le_decode_le_bytes(x / 256, m);
        lemma_pow256_pos(m);
        lemma_mod_breakdown(x as int, 256, pow256(m) as int);
        assert(le_bytes(x, n).drop_first() =~= le_bytes(x / 256, m));
        assert(pow256(n) == 256 * pow256(m));
    }
}

/// Decoding an encoded number gives exactly the number back, when the
/// number fits in the encoded width.
pub proof fn lemma_le_decode_le_bytes_exact(x: nat, n: nat)
    requires
        x < pow256(n),
    ensures
        le_decode(le_bytes(x, n)) == x,
{
    lemma_le_decode_le_bytes(x, n);
    lemma_pow256_pos(n);
    lemma_small_mod(x, pow256(n));
}

/// Encoding a decoded byte sequence gives the sequence back: every byte
/// pattern is the representation of the number it decodes to.
pub proof fn lemma_le_bytes_le_decode(s: Seq<u8>)
    ensures
        le_bytes(le_decode(s), s.len()) == s,
    decreases s.len(),
{
    if s.len() == 0 {
        assert(le_bytes(le_decode(s), 0) =~= s);
    } else {
        let t = le_decode(s.drop_first());
        let d = le_decode(s);
        assert(d == t * 256 + s[0] as nat);
        lemma_fundamental_div_mod_converse(d as int, 256, t as int, s[0] as int);
        lemma_le_bytes_le_decode(s.drop_first());
        lemma_le_bytes_len(t, s.drop_first().len());
        assert(le_bytes(d, s.len()) =~= s);
    }
}

/// Encode the low `n` bytes of `x`, low byte first.
pub fn encode_le(x: u64, n: usize) -> (bytes: Vec<u8>)
    ensures
        bytes@ == le_bytes(x as nat, n as nat),
        bytes@.len() == n,
{
    let mut bytes: Vec<u8> = Vec::new();
    let mut cur: u64 = x;
    let mut i: usize = 0;
    while i < n
        invariant
            i <= n,
            bytes@.len() == i as nat,
            bytes@ + le_bytes(cur as nat, (n - i) as nat) == le_bytes(x as nat, n as nat),
        decreases n - i,
    {
        proof {
            assert(le_bytes(cur as nat, (n - i) as nat) == seq![((cur as nat) % 256) as u8]
                + le_bytes((cur as nat) / 256, (n - i - 1) as nat));
        }
        let ghost prev = bytes@;
        let b: u8 = (cur % 256) as u8;
        bytes.push(b);
        cur = cur / 256;
        i = i + 1;
        proof {
            assert(bytes@ + le_bytes(cur as nat, (n - i) as nat) =~= prev + (seq![b]
                + le_bytes(cur as nat, (n - i) as nat)));
        }
    }
    proof {
        assert(bytes@ =~= bytes@ + le_bytes(cur as nat, 0));
        lemma_le_bytes_len(x as nat, n as nat);
    }
    bytes
}

/// Decode `bytes[lo..hi]` as a little-endian number of at most eight bytes.
pub fn decode_le_range(bytes: &Vec<u8>, lo: usize, hi: usize) -> (x: u64)
    requires
        lo <= hi <= bytes@.len(),
        hi - lo <= 8,
    ensures
        x as nat == le_decode(bytes@.subrange(lo as int, hi as int)),
{
    let mut acc: u64 = 0;
    let mut i: usize = hi;
    while i > lo
        invariant
            lo <= i <= hi <= bytes@.len(),
            hi - lo <= 8,
            acc as nat == le_decode(bytes@.subrange(i as int, hi as int)),
        decreases i,
    {
        i = i - 1;
        proof {
            let s = bytes@.subrange(i as int, hi as int);
            let rest = bytes@.subrange(i as int + 1, hi as int);
            assert(s.drop_first() =~= rest);
            assert(s[0] == bytes@[i as int]);
            lemma_le_decode_bound(rest);
            lemma_pow256_increases(rest.len(), 7);
            lemma_pow256_values();
        }
        acc = acc * 256 + (bytes[i] as u64);
    }
    acc
}

/// Decode a whole little-endian byte sequence of at most eight bytes.
pub fn decode_le(bytes: &Vec<u8>) -> (x: u64)
    requires
        bytes@.len() <= 8,
    ensures
        x as nat == le_decode(bytes@),
{
    let x = decode_le_range(bytes, 0, bytes.len());
    proof {
        assert(bytes@.subrange(0, bytes@.len() as int) =~= bytes@);
    }
    x
}

/// A vector of `n` zero bytes.
pub fn zero_vec(n: usize) -> (bytes: Vec<u8>)
    ensures
        bytes@ == zero_padding(n as nat),
{
    let mut bytes: Vec<u8> = Vec::new();
    let mut i: usize = 0;
    while i < n
        invariant
            i <= n,
            bytes@ == zero_padding(i as nat),
        decreases n - i,
    {
        bytes.push(0u8);
        i = i + 1;
        proof {
            assert(bytes@ =~= zero_padding(i as nat));
        }
    }
    bytes
}

} // verus!
