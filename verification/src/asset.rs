//! Asset identifiers.

use crate::field::{fq_accepts, fq_modulus};
use crate::octets::le_nat;
use vstd::prelude::*;

verus! {

/// The identifier of an asset: an element of the field `Fq`, held by its
/// canonical 32-byte spelling. Two identifiers are equal when their bytes are.
#[derive(Clone, Copy, Debug, PartialEq, Eq)]
pub struct Id {
    bytes: [u8; 32],
}

impl View for Id {
    type V = Seq<u8>;

    closed spec fn view(&self) -> Seq<u8> {
        self.bytes@
    }
}

/// Whether 32 bytes are the canonical spelling of an asset identifier.
pub open spec fn is_asset_id(bytes: Seq<u8>) -> bool {
    bytes.len() == 32 && le_nat(bytes) < fq_modulus()
}

impl Id {
    /// Every identifier in use spells a number below the field's order.
    #[verifier::type_invariant]
    pub open spec fn wf(self) -> bool {
        is_asset_id(self@)
    }

    /// Reads an identifier from 32 bytes; `None` where they spell no field
    /// element.
    pub fn from_bytes(bytes: [u8; 32]) -> (out: Option<Id>)
        ensures
            out is Some <==> is_asset_id(bytes@),
            out matches Some(id) ==> id@ == bytes@ && id.wf(),
    {
        if fq_accepts(&bytes) {
            Some(Id { bytes })
        } else {
            None
        }
    }

    /// The identifier's 32 bytes.
    pub fn to_bytes(&self) -> (out: [u8; 32])
        ensures
            out@ == self@,
    {
        self.bytes
    }

    /// Two identifiers with the same bytes are the same identifier.
    pub proof fn lemma_view_injective(a: Id, b: Id)
        requires
            a@ == b@,
        ensures
            a == b,
    {
        assert(a.bytes =~= b.bytes);
    }
}

} // verus!
