//! Byte views of records under the two layout policies.
//!
//! Both record types hold the same field set: an eight-byte unsigned `a`, a
//! one-byte `b`, and an eight-byte unsigned `c`. [`ReprPacked`] stands
//! under the dense policy, with the fields back to back in seventeen
//! bytes. [`ReprC`] stands under the eight-byte aligned policy: seven
//! padding bytes follow `b` so that `c` begins on an eight-byte boundary,
//! and the whole record takes twenty-four bytes. This crate's aligned
//! representation keeps its padding positions zero, so a view may read
//! them, and bytes written over them are not stored.

use vstd::prelude::*;
use crate::AsBytes;
use crate::encoding::{
    decode_le_range, encode_le, le_bytes, lemma_le_bytes_le_decode, lemma_le_bytes_len,
    zero_padding, zero_vec,
};

verus! {

/// The record under the dense layout policy: no padding anywhere.
pub struct ReprPacked {
    pub a: u64,
    pub b: u8,
    pub c: u64,
}

/// The record under the eight-byte aligned layout policy: seven padding
/// bytes stand between `b` and `c`.
pub struct ReprC {
    pub a: u64,
    pub b: u8,
    pub c: u64,
}

impl AsBytes for ReprPacked {
    open spec fn size_of_value(&self) -> nat {
        17
    }

    open spec fn byte_repr(&self) -> Seq<u8> {
        le_bytes(self.a as nat, 8) + le_bytes(self.b as nat, 1) + le_bytes(self.c as nat, 8)
    }

    open spec fn stored_repr(bytes: Seq<u8>) -> Seq<u8> {
        bytes
    }

    proof fn lemma_byte_repr_len(&self) {
        lemma_le_bytes_len(self.a as nat, 8);
        lemma_le_bytes_len(self.b as nat, 1);
        lemma_le_bytes_len(self.c as nat, 8);
    }

    proof fn lemma_stored_repr_of_own(&self) {
    }

    fn as_bytes(&self) -> (bytes: Vec<u8>) {
        let mut bytes = encode_le(self.a, 8);
        let mut mid = encode_le(self.b as u64, 1);
        bytes.append(&mut mid);
        let mut tail = encode_le(self.c, 8);
        bytes.append(&mut tail);
        bytes
    }

    fn as_bytes_mut(&mut self, bytes: &Vec<u8>) {
        let a = decode_le_range(bytes, 0, 8);
        let b = bytes[8];
        let c = decode_le_range(bytes, 9, 17);
        self.a = a;
        self.b = b;
        self.c = c;
        proof {
            lemma_le_bytes_le_decode(bytes@.subrange(0, 8));
            lemma_le_bytes_le_decode(bytes@.subrange(9, 17));
            lemma_le_bytes_len(a as nat, 8);
            lemma_le_bytes_len(b as nat, 1);
            lemma_le_bytes_len(c as nat, 8);
            assert(b == bytes@[8]);
            assert(le_bytes(b as nat, 1) =~= bytes@.subrange(8, 9));
            assert(le_bytes(a as nat, 8) + le_bytes(b as nat, 1) + le_bytes(c as nat, 8)
                =~= bytes@);
        }
    }
}

impl AsBytes for ReprC {
    open spec fn size_of_value(&self) -> nat {
        24
    }

    open spec fn byte_repr(&self) -> Seq<u8> {
        le_bytes(self.a as nat, 8) + le_bytes(self.b as nat, 1) + zero_padding(7)
            + le_bytes(self.c as nat, 8)
    }

    open spec fn stored_repr(bytes: Seq<u8>) -> Seq<u8> {
        bytes.subrange(0, 9) + zero_padding(7) + bytes.subrange(16, 24)
    }

    proof fn lemma_byte_repr_len(&self) {
        lemma_le_bytes_len(self.a as nat, 8);
        lemma_le_bytes_len(self.b as nat, 1);
        lemma_le_bytes_len(self.c as nat, 8);
    }

    proof fn lemma_stored_repr_of_own(&self) {
        lemma_le_bytes_len(self.a as nat, 8);
        lemma_le_bytes_len(self.b as nat, 1);
        lemma_le_bytes_len(self.c as nat, 8);
        let r = self.byte_repr();
        assert(r.subrange(0, 9) =~= le_bytes(self.a as nat, 8) + le_bytes(self.b as nat, 1));
        assert(r.subrange(16, 24) =~= le_bytes(self.c as nat, 8));
        assert(Self::stored_repr(r) =~= r);
    }

    fn as_bytes(&self) -> (bytes: Vec<u8>) {
        let mut bytes = encode_le(self.a, 8);
        let mut mid = encode_le(self.b as u64, 1);
        bytes.append(&mut mid);
        let mut pad = zero_vec(7);
        bytes.append(&mut pad);
        let mut tail = encode_le(self.c, 8);
        bytes.append(&mut tail);
        bytes
    }

    fn as_bytes_mut(&mut self, bytes: &Vec<u8>) {
        let a = decode_le_range(bytes, 0, 8);
        let b = bytes[8];
        let c = decode_le_range(bytes, 16, 24);
        self.a = a;
        self.b = b;
        self.c = c;
        proof {
            lemma_le_bytes_le_decode(bytes@.subrange(0, 8));
            lemma_le_bytes_le_decode(bytes@.subrange(16, 24));
            lemma_le_bytes_len(a as nat, 8);
            lemma_le_bytes_len(b as nat, 1);
            lemma_le_bytes_len(c as nat, 8);
            assert(b == bytes@[8]);
            assert(le_bytes(b as nat, 1) =~= bytes@.subrange(8, 9));
            assert(le_bytes(a as nat, 8) + le_bytes(b as nat, 1) + zero_padding(7)
                + le_bytes(c as nat, 8) =~= Self::stored_repr(bytes@));
        }
    }
}

} // verus!
