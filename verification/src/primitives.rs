//! The host chain's primitive value types, declared for the verifier.
//!
//! Amounts are 256-bit unsigned integers and currencies are 20-byte account
//! addresses. Both come from `alloy_primitives` and are carried through the
//! pricing logic untouched: the verifier treats them as opaque values.

use vstd::prelude::*;

verus! {

/// Relies on `alloy_primitives::Address`, an opaque 20-byte account address;
/// the pricing logic never inspects its contents.
#[verifier::external_type_specification]
#[verifier::external_body]
pub struct ExAddress(alloy_primitives::Address);

/// Relies on `ruint::Uint` (re-exported by `alloy_primitives`, whose `U256`
/// aliases `Uint<256, 4>`), an opaque fixed-width unsigned integer; the
/// pricing logic never computes with it, it only carries it through.
#[verifier::external_type_specification]
#[verifier::external_body]
pub struct ExUint<const BITS: usize, const LIMBS: usize>(alloy_primitives::ruint::Uint<BITS, LIMBS>);

/// The currency data type.
pub type Currency = alloy_primitives::Address;

} // verus!
