//! The laws that hold of every byte view.
//!
//! Each proof function here states a property of the view operations over
//! the spec functions their contracts use: `as_bytes` returns exactly
//! `byte_repr`, and `as_bytes_mut` leaves a value whose `byte_repr` is the
//! stored form of the written bytes.

use vstd::prelude::*;
use crate::AsBytes;
use crate::encoding::{le_decode, lemma_le_bytes_len, lemma_le_decode_le_bytes_exact,
    lemma_pow256_values, zero_padding};
use crate::records::{ReprC, ReprPacked};

verus! {

/// The length of every immutable byte view equals the runtime size of the
/// value it was taken from.
pub proof fn lemma_view_length_is_value_size<T: AsBytes>(v: &T)
    ensures
        v.byte_repr().len() == v.size_of_value(),
{
    v.lemma_byte_repr_len();
}

/// Any two immutable byte views taken from the same unmodified value are
/// bit-identical: `as_bytes` promises each of them to equal the value's
/// byte representation.
pub proof fn lemma_concurrent_views_identical<T: AsBytes>(v: &T, first: Seq<u8>, second: Seq<u8>)
    requires
        first == v.byte_repr(),
        second == v.byte_repr(),
    ensures
        first == second,
{
}

/// Writing any single byte through a `u8`'s mutable byte view and reading
/// back through the typed accessor yields exactly the value that byte
/// encodes: `as_bytes_mut` leaves the value with the written bytes as its
/// representation, and the representation determines the value.
pub proof fn lemma_mut_view_round_trip_u8(v: u8, bytes: Seq<u8>)
    requires
        bytes.len() == 1,
        v.byte_repr() == <u8 as AsBytes>::stored_repr(bytes),
    ensures
        v.byte_repr() == bytes,
        v as nat == le_decode(bytes),
{
    lemma_pow256_values();
    lemma_le_decode_le_bytes_exact(v as nat, 1);
}

/// The round trip through a `u16`'s mutable byte view, for any two-byte
/// pattern.
pub proof fn lemma_mut_view_round_trip_u16(v: u16, bytes: Seq<u8>)
    requires
        bytes.len() == 2,
        v.byte_repr() == <u16 as AsBytes>::stored_repr(bytes),
    ensures
        v.byte_repr() == bytes,
        v as nat == le_decode(bytes),
{
    lemma_pow256_values();
    lemma_le_decode_le_bytes_exact(v as nat, 2);
}

/// The round trip through a `u32`'s mutable byte view, for any four-byte
/// pattern.
pub proof fn lemma_mut_view_round_trip_u32(v: u32, bytes: Seq<u8>)
    requires
        bytes.len() == 4,
        v.byte_repr() == <u32 as AsBytes>::stored_repr(bytes),
    ensures
        v.byte_repr() == bytes,
        v as nat == le_decode(bytes),
{
    lemma_pow256_values();
    lemma_le_decode_le_bytes_exact(v as nat, 4);
}

/// The round trip through a `u64`'s mutable byte view, for any eight-byte
/// pattern.
pub proof fn lemma_mut_view_round_trip_u64(v: u64, bytes: Seq<u8>)
    requires
        bytes.len() == 8,
        v.byte_repr() == <u64 as AsBytes>::stored_repr(bytes),
    ensures
        v.byte_repr() == bytes,
        v as nat == le_decode(bytes),
{
    lemma_pow256_values();
    lemma_le_decode_le_bytes_exact(v as nat, 8);
}

/// The round trip through a dense record's mutable byte view: every
/// seventeen-byte pattern is a valid dense record, so writing one and
/// reading the fields back decodes exactly the written bytes.
pub proof fn lemma_mut_view_round_trip_packed(v: ReprPacked, bytes: Seq<u8>)
    requires
        bytes.len() == 17,
        v.byte_repr() == ReprPacked::stored_repr(bytes),
    ensures
        v.byte_repr() == bytes,
        v.a as nat == le_decode(bytes.subrange(0, 8)),
        v.b == bytes[8],
        v.c as nat == le_decode(bytes.subrange(9, 17)),
{
    lemma_le_bytes_len(v.a as nat, 8);
    lemma_le_bytes_len(v.b as nat, 1);
    lemma_le_bytes_len(v.c as nat, 8);
    lemma_pow256_values();
    assert(bytes.subrange(0, 8) =~= crate::encoding::le_bytes(v.a as nat, 8));
    assert(bytes.subrange(9, 17) =~= crate::encoding::le_bytes(v.c as nat, 8));
    lemma_le_decode_le_bytes_exact(v.a as nat, 8);
    lemma_le_decode_le_bytes_exact(v.c as nat, 8);
}

/// The round trip through an aligned record's mutable byte view: the field
/// positions of the written pattern decode exactly, while the padding
/// positions are not stored and read back as zero.
pub proof fn lemma_mut_view_round_trip_aligned(v: ReprC, bytes: Seq<u8>)
    requires
        bytes.len() == 24,
        v.byte_repr() == ReprC::stored_repr(bytes),
    ensures
        v.a as nat == le_decode(bytes.subrange(0, 8)),
        v.b == bytes[8],
        v.c as nat == le_decode(bytes.subrange(16, 24)),
        v.byte_repr().subrange(0, 9) == bytes.subrange(0, 9),
        v.byte_repr().subrange(9, 16) == zero_padding(7),
        v.byte_repr().subrange(16, 24) == bytes.subrange(16, 24),
{
    lemma_le_bytes_len(v.a as nat, 8);
    lemma_le_bytes_len(v.b as nat, 1);
    lemma_le_bytes_len(v.c as nat, 8);
    lemma_pow256_values();
    let r = v.byte_repr();
    let stored = ReprC::stored_repr(bytes);
    assert(r.subrange(0, 8) =~= crate::encoding::le_bytes(v.a as nat, 8));
    assert(stored.subrange(0, 8) =~= bytes.subrange(0, 8));
    assert(r.subrange(8, 9) =~= crate::encoding::le_bytes(v.b as nat, 1));
    assert(stored.subrange(8, 9) =~= bytes.subrange(8, 9));
    assert(r.subrange(16, 24) =~= crate::encoding::le_bytes(v.c as nat, 8));
    assert(stored.subrange(16, 24) =~= bytes.subrange(16, 24));
    lemma_le_decode_le_bytes_exact(v.a as nat, 8);
    lemma_le_decode_le_bytes_exact(v.c as nat, 8);
    assert(crate::encoding::le_bytes(v.b as nat, 1) =~= seq![v.b]);
    assert(v.b == bytes.subrange(8, 9)[0]);
    assert(r.subrange(0, 9) =~= stored.subrange(0, 9));
    assert(stored.subrange(0, 9) =~= bytes.subrange(0, 9));
    assert(r.subrange(9, 16) =~= zero_padding(7));
}

} // verus!
