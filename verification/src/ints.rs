//! Byte views of the fixed-width unsigned integers.
//!
//! Every bit pattern of the right width is a valid value of these types, so
//! their stored form is the written bytes themselves, and writing a pattern
//! through the mutable view then reading it back is exact.

use vstd::prelude::*;
use crate::AsBytes;
use crate::encoding::{
    decode_le, encode_le, le_bytes, lemma_le_bytes_le_decode, lemma_le_bytes_len,
    lemma_le_decode_bound, lemma_pow256_values,
};

verus! {

impl AsBytes for u8 {
    open spec fn size_of_value(&self) -> nat {
        1
    }

    open spec fn byte_repr(&self) -> Seq<u8> {
        le_bytes(*self as nat, 1)
    }

    open spec fn stored_repr(bytes: Seq<u8>) -> Seq<u8> {
        bytes
    }

    proof fn lemma_byte_repr_len(&self) {
        lemma_le_bytes_len(*self as nat, 1);
    }

    proof fn lemma_stored_repr_of_own(&self) {
    }

    fn as_bytes(&self) -> (bytes: Vec<u8>) {
        encode_le(*self as u64, 1)
    }

    fn as_bytes_mut(&mut self, bytes: &Vec<u8>) {
        proof {
            lemma_le_decode_bound(bytes@);
            lemma_pow256_values();
        }
        let x: u64 = decode_le(bytes);
        *self = x as u8;
        proof {
            lemma_le_bytes_le_decode(bytes@);
        }
    }
}

impl AsBytes for u16 {
    open spec fn size_of_value(&self) -> nat {
        2
    }

    open spec fn byte_repr(&self) -> Seq<u8> {
        le_bytes(*self as nat, 2)
    }

    open spec fn stored_repr(bytes: Seq<u8>) -> Seq<u8> {
        bytes
    }

    proof fn lemma_byte_repr_len(&self) {
        lemma_le_bytes_len(*self as nat, 2);
    }

    proof fn lemma_stored_repr_of_own(&self) {
    }

    fn as_bytes(&self) -> (bytes: Vec<u8>) {
        encode_le(*self as u64, 2)
    }

    fn as_bytes_mut(&mut self, bytes: &Vec<u8>) {
        proof {
            lemma_le_decode_bound(bytes@);
            lemma_pow256_values();
        }
        let x: u64 = decode_le(bytes);
        *self = x as u16;
        proof {
            lemma_le_bytes_le_decode(bytes@);
        }
    }
}

impl AsBytes for u32 {
    open spec fn size_of_value(&self) -> nat {
        4
    }

    open spec fn byte_repr(&self) -> Seq<u8> {
        le_bytes(*self as nat, 4)
    }

    open spec fn stored_repr(bytes: Seq<u8>) -> Seq<u8> {
        bytes
    }

    proof fn lemma_byte_repr_len(&self) {
        lemma_le_bytes_len(*self as nat, 4);
    }

    proof fn lemma_stored_repr_of_own(&self) {
    }

    fn as_bytes(&self) -> (bytes: Vec<u8>) {
        encode_le(*self as u64, 4)
    }

    fn as_bytes_mut(&mut self, bytes: &Vec<u8>) {
        proof {
            lemma_le_decode_bound(bytes@);
            lemma_pow256_values();
        }
        let x: u64 = decode_le(bytes);
        *self = x as u32;
        proof {
            lemma_le_bytes_le_decode(bytes@);
        }
    }
}

impl AsBytes for u64 {
    open spec fn size_of_value(&self) -> nat {
        8
    }

    open spec fn byte_repr(&self) -> Seq<u8> {
        le_bytes(*self as nat, 8)
    }

    open spec fn stored_repr(bytes: Seq<u8>) -> Seq<u8> {
        bytes
    }

    proof fn lemma_byte_repr_len(&self) {
        lemma_le_bytes_len(*self as nat, 8);
    }

    proof fn lemma_stored_repr_of_own(&self) {
    }

    fn as_bytes(&self) -> (bytes: Vec<u8>) {
        encode_le(*self, 8)
    }

    fn as_bytes_mut(&mut self, bytes: &Vec<u8>) {
        let x: u64 = decode_le(bytes);
        *self = x;
        proof {
            lemma_le_bytes_le_decode(bytes@);
        }
    }
}

} // verus!
