//! Key agreement over the group: secrets, public keys and shared secrets.

use crate::field::{fr_accepts, fr_modulus};
use crate::group::{element_decodes, is_element_encoding, scalar_mul, scalar_mul_bytes, Element};
use crate::octets::le_nat;
use vstd::pervasive::unreached;
use vstd::prelude::*;

verus! {

/// A public key: the 32-byte encoding of a group element. Nothing checks, when
/// one is made, that the bytes encode an element.
#[derive(Clone, Copy, Debug, PartialEq, Eq)]
pub struct Public(pub [u8; 32]);

impl View for Public {
    type V = Seq<u8>;

    open spec fn view(&self) -> Seq<u8> {
        self.0@
    }
}

impl Public {
    /// Whether the key encodes a group element, so that a secret can agree with it.
    pub fn is_valid(&self) -> (ok: bool)
        ensures
            ok == element_decodes(self@),
    {
        is_element_encoding(&self.0)
    }
}

/// The outcome of a key agreement: the encoding of the shared group element.
#[derive(Clone, Copy, Debug, PartialEq, Eq)]
pub struct SharedSecret(pub [u8; 32]);

impl View for SharedSecret {
    type V = Seq<u8>;

    open spec fn view(&self) -> Seq<u8> {
        self.0@
    }
}

/// A secret key: a scalar of the group, held by its canonical 32-byte spelling.
#[derive(Clone, Copy, Debug, PartialEq, Eq)]
pub struct Secret {
    bytes: [u8; 32],
}

impl View for Secret {
    type V = Seq<u8>;

    closed spec fn view(&self) -> Seq<u8> {
        self.bytes@
    }
}

impl Secret {
    /// Every secret in use spells a number below the group's order.
    #[verifier::type_invariant]
    pub open spec fn wf(self) -> bool {
        self@.len() == 32 && le_nat(self@) < fr_modulus()
    }

    /// Reads a secret from 32 bytes; `None` where they spell no scalar.
    pub fn from_bytes(bytes: [u8; 32]) -> (out: Option<Secret>)
        ensures
            out is Some <==> le_nat(bytes@) < fr_modulus(),
            out matches Some(s) ==> s@ == bytes@ && s.wf(),
    {
        if fr_accepts(&bytes) {
            Some(Secret { bytes })
        } else {
            None
        }
    }

    /// The secret's 32 bytes.
    pub fn to_bytes(&self) -> (out: [u8; 32])
        ensures
            out@ == self@,
    {
        self.bytes
    }

    /// The public key that belongs to this secret under the generator
    /// `diversified_generator`.
    pub fn diversified_public(&self, diversified_generator: &Element) -> (pk: Public)
        ensures
            pk@ == scalar_mul(self@, diversified_generator@),
    {
        proof {
            use_type_invariant(self);
            use_type_invariant(diversified_generator);
        }
        let point = diversified_generator.compress();
        match scalar_mul_bytes(&self.bytes, &point) {
            Some(product) => Public(product),
            None => unreached(),
        }
    }

    /// Agrees on a shared secret with the holder of `other`. The agreement fails
    /// exactly when `other` encodes no group element.
    pub fn key_agreement_with(&self, other: &Public) -> (out: Option<SharedSecret>)
        ensures
            out is Some <==> element_decodes(other@),
            out matches Some(shared) ==> shared@ == scalar_mul(self@, other@),
    {
        proof {
            use_type_invariant(self);
        }
        match scalar_mul_bytes(&self.bytes, &other.0) {
            Some(product) => Some(SharedSecret(product)),
            None => None,
        }
    }

    /// Two secrets with the same bytes are the same secret.
    pub proof fn lemma_view_injective(a: Secret, b: Secret)
        requires
            a@ == b@,
        ensures
            a == b,
    {
        assert(a.bytes =~= b.bytes);
    }
}

} // verus!
