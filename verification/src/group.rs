//! Elements of the prime-order group, held by their 32-byte encoding.

use crate::field::fr_modulus;
use crate::octets::le_nat;
use decaf377::FieldExt;
use vstd::prelude::*;

verus! {

/// Whether `decaf377` decompresses `bytes` to a group element.
pub uninterp spec fn element_decodes(bytes: Seq<u8>) -> bool;

/// The encoding of the product of the scalar spelled by `scalar` with the element
/// encoded by `point`, as `decaf377` computes it.
pub uninterp spec fn scalar_mul(scalar: Seq<u8>, point: Seq<u8>) -> Seq<u8>;

/// Trusted: `decaf377::Encoding::vartime_decompress`. The result says whether the
/// call succeeded; nothing is claimed about which strings do.
#[verifier::external_body]
fn decompresses(bytes: &[u8; 32]) -> (ok: bool)
    ensures
        ok == element_decodes(bytes@),
{
    decaf377::Encoding(*bytes).vartime_decompress().is_ok()
}

/// Trusted: the product `Fr * Element` of `decaf377`, between byte strings. The
/// scalar is read with `Fr::from_bytes`, the point with
/// `Encoding::vartime_decompress`, and the product is written with
/// `Element::vartime_compress`. The call fails exactly when one of the two
/// readings does; otherwise its result is a function of the two strings alone.
#[verifier::external_body]
pub(crate) fn scalar_mul_bytes(scalar: &[u8; 32], point: &[u8; 32]) -> (out: Option<[u8; 32]>)
    ensures
        out is Some <==> (le_nat(scalar@) < fr_modulus() && element_decodes(point@)),
        out matches Some(product) ==> product@ == scalar_mul(scalar@, point@),
{
    let s = decaf377::Fr::from_bytes(*scalar).ok()?;
    let p = decaf377::Encoding(*point).vartime_decompress().ok()?;
    Some((s * p).vartime_compress().0)
}

/// An element of the group, kept as the 32 bytes it was read from. `decaf377`
/// decodes an element from its canonical encoding only, so these are also the
/// bytes that it writes for the element: the two determine each other, and the
/// rest of the library reads an element in no other form.
#[derive(Clone, Copy, Debug, PartialEq, Eq)]
pub struct Element {
    bytes: [u8; 32],
}

impl View for Element {
    type V = Seq<u8>;

    closed spec fn view(&self) -> Seq<u8> {
        self.bytes@
    }
}

impl Element {
    /// Every element in use decodes.
    #[verifier::type_invariant]
    pub open spec fn wf(self) -> bool {
        self@.len() == 32 && element_decodes(self@)
    }

    /// Reads an element from its encoding; `None` where the bytes encode none.
    pub fn decompress(bytes: &[u8; 32]) -> (out: Option<Element>)
        ensures
            out is Some <==> element_decodes(bytes@),
            out matches Some(e) ==> e@ == bytes@ && e.wf(),
    {
        if decompresses(bytes) {
            Some(Element { bytes: *bytes })
        } else {
            None
        }
    }

    /// The element's encoding.
    pub fn compress(&self) -> (out: [u8; 32])
        ensures
            out@ == self@,
    {
        self.bytes
    }

    /// Two elements with the same encoding are the same element.
    pub proof fn lemma_view_injective(a: Element, b: Element)
        requires
            a@ == b@,
        ensures
            a == b,
    {
        assert(a.bytes =~= b.bytes);
    }
}

/// Whether `bytes` encode a group element.
pub fn is_element_encoding(bytes: &[u8; 32]) -> (ok: bool)
    ensures
        ok == element_decodes(bytes@),
{
    decompresses(bytes)
}

} // verus!
