//! The items of the `regiface` crate that the command encodings use.
use crate::byte_order::be_u16;
use core::convert::Infallible;
use regiface::ToByteArray;
use regiface::Zeros;
use vstd::prelude::*;

verus! {

/// `regiface::Zeros<N>`: a parameter block made of `N` zero bytes.
#[verifier::external_type_specification]
#[verifier::external_body]
pub struct ExZeros<const N: usize>(Zeros<N>);

/// Serializes a 16-bit parameter through `regiface`'s `ToByteArray` impl for `u16`.
///
/// That impl returns `Ok(self.to_be_bytes())`: the contract claims that the call
/// never fails and yields the two bytes of `v`, most significant first.
#[verifier::external_body]
pub(crate) fn u16_param_bytes(v: u16) -> (r: Result<[u8; 2], Infallible>)
    ensures
        r is Ok,
        r->Ok_0@ == be_u16(v),
{
    ToByteArray::to_bytes(v)
}

/// Builds the one-byte zero parameter block with `regiface::Zeros::<1>::default()`.
///
/// `Zeros` has no fields that Verus can see, so nothing is claimed of the value.
#[verifier::external_body]
pub(crate) fn one_zero_byte() -> (z: Zeros<1>) {
    Zeros::<1>::default()
}

} // verus!
