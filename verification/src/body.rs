//! Message bodies: opaque byte buffers owned by a message.

use vstd::prelude::*;

verus! {

/// Copies a byte slice into an owned buffer.
///
/// This is `Box::<[u8]>::from(&[u8])` of the standard library, which
/// allocates and copies the slice: the buffer holds the bytes of `data`, in
/// their order.
#[verifier::external_body]
pub(crate) fn boxed_bytes(data: &[u8]) -> (b: Box<[u8]>)
    ensures
        b@ == data@,
{
    Box::from(data)
}

} // verus!
