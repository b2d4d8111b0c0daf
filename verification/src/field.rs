//! The two prime fields of the group: which 32-byte strings are the canonical
//! spelling of a field element.

use crate::octets::le_nat;
use decaf377::FieldExt;
use vstd::prelude::*;

verus! {

/// The order of the field `Fq`, in which the group's coordinates and the asset
/// identifiers live.
pub open spec fn fq_modulus() -> nat {
    8444461749428370424248824938781546531375899335154063827935233455917409239041nat
}

/// The order of the scalar field `Fr`, which is the order of the group.
pub open spec fn fr_modulus() -> nat {
    2111115437357092606062206234695386632838870926408408195193685246394721360383nat
}

/// Trusted: `decaf377::Fq::from_bytes` (the `FieldExt` impl). It accepts 32 bytes
/// exactly when the little-endian number they spell is below the field's order;
/// its extra test of the top three bits follows from that, the order being below
/// 2^253.
#[verifier::external_body]
pub(crate) fn fq_accepts(bytes: &[u8; 32]) -> (ok: bool)
    ensures
        ok == (le_nat(bytes@) < fq_modulus()),
{
    decaf377::Fq::from_bytes(*bytes).is_ok()
}

/// Trusted: `decaf377::Fr::from_bytes` (the `FieldExt` impl). It accepts 32 bytes
/// exactly when the little-endian number they spell is below the scalar field's
/// order.
#[verifier::external_body]
pub(crate) fn fr_accepts(bytes: &[u8; 32]) -> (ok: bool)
    ensures
        ok == (le_nat(bytes@) < fr_modulus()),
{
    decaf377::Fr::from_bytes(*bytes).is_ok()
}

} // verus!
