//! Byte views of byte buffers.
//!
//! A buffer's backing storage is its contents, and its size is only known
//! at runtime: the view over a buffer shows that size computed from the
//! value itself, where a static per-type size would be wrong.

use vstd::prelude::*;
use crate::AsBytes;

verus! {

impl AsBytes for Vec<u8> {
    open spec fn size_of_value(&self) -> nat {
        self@.len()
    }

    open spec fn byte_repr(&self) -> Seq<u8> {
        self@
    }

    open spec fn stored_repr(bytes: Seq<u8>) -> Seq<u8> {
        bytes
    }

    proof fn lemma_byte_repr_len(&self) {
    }

    proof fn lemma_stored_repr_of_own(&self) {
    }

    fn as_bytes(&self) -> (bytes: Vec<u8>) {
        let mut out: Vec<u8> = Vec::new();
        let mut i: usize = 0;
        while i < self.len()
            invariant
                i <= self@.len(),
                out@ == self@.subrange(0, i as int),
            decreases self@.len() - i,
        {
            out.push(self[i]);
            i = i + 1;
            proof {
                assert(out@ =~= self@.subrange(0, i as int));
            }
        }
        proof {
            assert(out@ =~= self@);
        }
        out
    }

    fn as_bytes_mut(&mut self, bytes: &Vec<u8>) {
        self.clear();
        let mut i: usize = 0;
        while i < bytes.len()
            invariant
                i <= bytes@.len(),
                self@ == bytes@.subrange(0, i as int),
            decreases bytes@.len() - i,
        {
            self.push(bytes[i]);
            i = i + 1;
            proof {
                assert(self@ =~= bytes@.subrange(0, i as int));
            }
        }
        proof {
            assert(self@ =~= bytes@);
        }
    }
}

} // verus!
