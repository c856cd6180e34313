//! The shared byte buffers of the `bytes` crate, as the library sees them.
use vstd::prelude::*;

use bytes::Bytes;
use vstd::utf8::encode_utf8;

verus! {

/// `bytes::Bytes`: an immutable buffer whose clones share one allocation.
#[verifier::external_type_specification]
#[verifier::external_body]
pub struct ExBytes(Bytes);

/// The bytes that a shared buffer holds.
pub uninterp spec fn bytes_of(b: Bytes) -> Seq<u8>;

/// Relies on `Clone for bytes::Bytes`: a clone shares the same bytes.
pub assume_specification[ <Bytes as Clone>::clone ](b: &Bytes) -> (r: Bytes)
    ensures
        bytes_of(r) == bytes_of(*b),
;

/// Relies on `From<String> for bytes::Bytes`: the buffer takes over the
/// string's UTF-8 bytes.
#[verifier::external_body]
pub(crate) fn bytes_from_string(s: String) -> (r: Bytes)
    ensures
        bytes_of(r) == encode_utf8(s@),
{
    Bytes::from(s)
}

} // verus!
