//! Chunks of body data: `bytes::Bytes`, as far as the library reads it.

use vstd::prelude::*;

verus! {

#[verifier::external_type_specification]
#[verifier::external_body]
pub struct ExBytes(bytes::Bytes);

/// The bytes that a chunk holds, in order.
pub uninterp spec fn bytes_of(chunk: bytes::Bytes) -> Seq<u8>;

/// `Bytes::new` makes a chunk that holds no byte.
pub assume_specification[ bytes::Bytes::new ]() -> (chunk: bytes::Bytes)
    ensures
        bytes_of(chunk) == Seq::<u8>::empty(),
;

/// `Bytes::len` is the number of bytes that the chunk holds.
pub assume_specification[ bytes::Bytes::len ](chunk: &bytes::Bytes) -> (n: usize)
    ensures
        n == bytes_of(*chunk).len(),
;

/// `Bytes::is_empty` tells whether the chunk holds no byte.
pub assume_specification[ bytes::Bytes::is_empty ](chunk: &bytes::Bytes) -> (e: bool)
    ensures
        e == (bytes_of(*chunk).len() == 0),
;

} // verus!
