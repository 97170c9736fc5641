//! Byte views of values.
//!
//! A value of any of the types modelled here can be viewed as the contiguous
//! run of bytes that backs it. The [`AsBytes`] capability offers two
//! operations: an immutable view, which reads the backing representation as
//! a sequence of bytes, and a mutable view, which overwrites that
//! representation in place. The view always covers exactly the runtime size
//! of the value, so dynamically sized values are handled as correctly as
//! statically sized ones.
//!
//! Multi-byte fields are laid down in little-endian order. Types under a
//! dense layout place their fields back to back; types under an aligned
//! layout keep explicit padding positions between fields, and the view
//! reflects whichever policy the type uses.

use vstd::prelude::*;

pub mod buffers;
pub mod encoding;
pub mod ints;
pub mod laws;
pub mod records;

verus! {

/// The byte-view capability: a value seen as the run of bytes backing it.
///
/// `byte_repr` is the mathematical model of a value's backing
/// representation; `as_bytes` and `as_bytes_mut` are the two view
/// operations over it. Because the immutable view borrows the value and the
/// mutable view borrows it exclusively, the borrow rules keep the two
/// apart: any number of immutable views may be taken at once, but a mutable
/// view can never coexist with another view of the same value.
pub trait AsBytes {
    /// The size in bytes of the value's backing representation, computed
    /// from the value itself rather than from its type alone, so that a
    /// value whose size is only known at runtime reports its true size.
    spec fn size_of_value(&self) -> nat;

    /// The value's backing representation, byte for byte, exactly as the
    /// value's layout policy produces it: multi-byte fields in
    /// little-endian order, padding positions included.
    spec fn byte_repr(&self) -> Seq<u8>;

    /// The representation a value holds after `bytes` has been written
    /// through its mutable byte view. For a type whose every bit pattern of
    /// the right size is a valid value this is `bytes` itself; a type with
    /// padding normalizes the padding positions it does not store.
    spec fn stored_repr(bytes: Seq<u8>) -> Seq<u8>;

    /// A representation has exactly as many bytes as the value is large.
    proof fn lemma_byte_repr_len(&self)
        ensures
            self.byte_repr().len() == self.size_of_value(),
    ;

    /// A representation read out of a value is already in stored form:
    /// writing a value's own bytes back leaves the value as it was.
    proof fn lemma_stored_repr_of_own(&self)
        ensures
            Self::stored_repr(self.byte_repr()) == self.byte_repr(),
    ;

    /// The immutable byte view: the value's backing representation, read
    /// out without changing the value. Its length always equals the runtime
    /// size of the value.
    fn as_bytes(&self) -> (bytes: Vec<u8>)
        ensures
            bytes@ == self.byte_repr(),
            bytes@.len() == self.size_of_value(),
    ;

    /// The mutable byte view: overwrites the value's backing representation
    /// with `bytes`, which must cover the value exactly. Afterwards the
    /// value's representation is the stored form of the written bytes, and
    /// its size is unchanged.
    fn as_bytes_mut(&mut self, bytes: &Vec<u8>)
        requires
            bytes@.len() == old(self).size_of_value(),
        ensures
            final(self).byte_repr() == Self::stored_repr(bytes@),
            final(self).size_of_value() == old(self).size_of_value(),
    ;
}

} // verus!
