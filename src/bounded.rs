//! Fixed-capacity byte buffers, held in `heapless::Vec`.
use vstd::prelude::*;

verus! {

/// The largest number of bytes that a payload or a response may hold.
pub const CAPACITY: usize = 256;

/// A bounded byte buffer: a command payload or a response.
pub type Bytes = heapless::Vec<u8, 256>;

#[verifier::external_type_specification]
#[verifier::external_body]
#[verifier::reject_recursive_types(T)]
pub struct ExHeaplessVec<T, const N: usize>(heapless::Vec<T, N>);

/// The bytes that a bounded buffer holds, in order.
pub uninterp spec fn items(v: heapless::Vec<u8, 256>) -> Seq<u8>;

/// Relies on `heapless::Vec::from_slice`: it fails exactly when the slice is
/// longer than the capacity, and otherwise holds the slice's bytes in order.
#[verifier::external_body]
pub(crate) fn bytes_from_slice(s: &[u8]) -> (r: Result<Bytes, ()>)
    ensures
        r is Ok <==> s@.len() <= 256,
        r matches Ok(v) ==> items(v) == s@,
{
    heapless::Vec::from_slice(s)
}

/// Relies on `heapless::Vec::as_slice`: the slice holds the buffer's bytes.
#[verifier::external_body]
pub(crate) fn bytes_as_slice(v: &Bytes) -> (r: &[u8])
    ensures
        r@ == items(*v),
{
    v.as_slice()
}

/// Copies `s` into a bounded buffer; `s` fits by `requires`.
pub fn bytes_of(s: &[u8]) -> (r: Bytes)
    requires
        s@.len() <= CAPACITY,
    ensures
        items(r) == s@,
{
    bytes_from_slice(s).unwrap()
}

} // verus!
