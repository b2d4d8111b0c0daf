//! The conversions of `std` between swaps and their bytes.
//!
//! Each one does what the method of the same purpose does, and states it again
//! in its own `ensures`. Where the target is determined by its bytes, `from_spec`
//! or `try_from_spec` names the result as well; a vector is not, so for it only
//! the `ensures` speaks.

use crate::octets::{array_of, lemma_array_of};
use crate::swap::{
    Error, SwapCiphertext, SwapPlaintext, SwapPlaintextView, TradingPair, TradingPairView,
    SWAP_CIPHERTEXT_BYTES,
};
use vstd::prelude::*;

verus! {

impl From<&SwapPlaintext> for [u8; 153] {
    /// The swap's canonical layout.
    fn from(swap: &SwapPlaintext) -> (out: [u8; 153])
        ensures
            out@ == swap@.encoding(),
    {
        let out = swap.to_bytes();
        proof {
            lemma_array_of(out);
        }
        out
    }
}

impl vstd::std_specs::convert::FromSpecImpl<&SwapPlaintext> for [u8; 153] {
    open spec fn obeys_from_spec() -> bool {
        true
    }

    open spec fn from_spec(swap: &SwapPlaintext) -> [u8; 153] {
        array_of::<153>(swap@.encoding())
    }
}

impl From<SwapPlaintext> for [u8; 153] {
    /// The swap's canonical layout.
    fn from(swap: SwapPlaintext) -> (out: [u8; 153])
        ensures
            out@ == swap@.encoding(),
    {
        let out = swap.to_bytes();
        proof {
            lemma_array_of(out);
        }
        out
    }
}

impl vstd::std_specs::convert::FromSpecImpl<SwapPlaintext> for [u8; 153] {
    open spec fn obeys_from_spec() -> bool {
        true
    }

    open spec fn from_spec(swap: SwapPlaintext) -> [u8; 153] {
        array_of::<153>(swap@.encoding())
    }
}

impl From<&SwapPlaintext> for Vec<u8> {
    /// The swap's canonical layout.
    fn from(swap: &SwapPlaintext) -> (out: Vec<u8>)
        ensures
            out@ == swap@.encoding(),
    {
        swap.to_vec()
    }
}

impl vstd::std_specs::convert::FromSpecImpl<&SwapPlaintext> for Vec<u8> {
    open spec fn obeys_from_spec() -> bool {
        false
    }

    open spec fn from_spec(swap: &SwapPlaintext) -> Vec<u8> {
        choose|bytes: Vec<u8>| bytes@ == swap@.encoding()
    }
}

impl TryFrom<&[u8]> for SwapPlaintext {
    type Error = Error;

    /// Reads a swap from its canonical layout.
    fn try_from(bytes: &[u8]) -> (out: Result<SwapPlaintext, Error>)
        ensures
            out matches Ok(swap) ==> SwapPlaintextView::parse(bytes@) == Ok::<
                SwapPlaintextView,
                Error,
            >(swap@),
            out matches Err(e) ==> SwapPlaintextView::parse(bytes@) == Err::<
                SwapPlaintextView,
                Error,
            >(e),
    {
        let out = SwapPlaintext::from_slice(bytes);
        proof {
            if let Ok(swap) = out {
                swap.lemma_plaintext_of_view();
            }
        }
        out
    }
}

impl vstd::std_specs::convert::TryFromSpecImpl<&[u8]> for SwapPlaintext {
    open spec fn obeys_try_from_spec() -> bool {
        true
    }

    open spec fn try_from_spec(bytes: &[u8]) -> Result<SwapPlaintext, Error> {
        match SwapPlaintextView::parse(bytes@) {
            Err(e) => Err(e),
            Ok(view) => Ok(view.plaintext()),
        }
    }
}

impl TryFrom<[u8; 153]> for SwapPlaintext {
    type Error = Error;

    /// Reads a swap from its canonical layout.
    fn try_from(bytes: [u8; 153]) -> (out: Result<SwapPlaintext, Error>)
        ensures
            out matches Ok(swap) ==> SwapPlaintextView::parse(bytes@) == Ok::<
                SwapPlaintextView,
                Error,
            >(swap@),
            out matches Err(e) ==> SwapPlaintextView::parse(bytes@) == Err::<
                SwapPlaintextView,
                Error,
            >(e),
    {
        let out = SwapPlaintext::from_bytes(&bytes);
        proof {
            if let Ok(swap) = out {
                swap.lemma_plaintext_of_view();
            }
        }
        out
    }
}

impl vstd::std_specs::convert::TryFromSpecImpl<[u8; 153]> for SwapPlaintext {
    open spec fn obeys_try_from_spec() -> bool {
        true
    }

    open spec fn try_from_spec(bytes: [u8; 153]) -> Result<SwapPlaintext, Error> {
        match SwapPlaintextView::parse(bytes@) {
            Err(e) => Err(e),
            Ok(view) => Ok(view.plaintext()),
        }
    }
}

impl TryFrom<[u8; 169]> for SwapCiphertext {
    type Error = Error;

    /// Takes 169 bytes as a ciphertext. This always succeeds.
    fn try_from(bytes: [u8; 169]) -> (out: Result<SwapCiphertext, Error>)
        ensures
            out == Ok::<SwapCiphertext, Error>(SwapCiphertext(bytes)),
    {
        Ok(SwapCiphertext::from_bytes(bytes))
    }
}

impl vstd::std_specs::convert::TryFromSpecImpl<[u8; 169]> for SwapCiphertext {
    open spec fn obeys_try_from_spec() -> bool {
        true
    }

    open spec fn try_from_spec(bytes: [u8; 169]) -> Result<SwapCiphertext, Error> {
        Ok(SwapCiphertext(bytes))
    }
}

impl TryFrom<&[u8]> for SwapCiphertext {
    type Error = Error;

    /// Takes a slice as a ciphertext; a slice that has not 169 bytes is a
    /// deserialization error.
    fn try_from(slice: &[u8]) -> (out: Result<SwapCiphertext, Error>)
        ensures
            out is Ok <==> slice@.len() == SWAP_CIPHERTEXT_BYTES,
            out matches Ok(ciphertext) ==> ciphertext@ == slice@,
            out matches Err(e) ==> e == Error::SwapDeserializationError,
    {
        match SwapCiphertext::from_slice(slice) {
            Some(ciphertext) => {
                proof {
                    lemma_array_of(ciphertext.0);
                }
                Ok(ciphertext)
            },
            None => Err(Error::SwapDeserializationError),
        }
    }
}

impl vstd::std_specs::convert::TryFromSpecImpl<&[u8]> for SwapCiphertext {
    open spec fn obeys_try_from_spec() -> bool {
        true
    }

    open spec fn try_from_spec(slice: &[u8]) -> Result<SwapCiphertext, Error> {
        if slice@.len() == SWAP_CIPHERTEXT_BYTES {
            Ok(SwapCiphertext(array_of::<169>(slice@)))
        } else {
            Err(Error::SwapDeserializationError)
        }
    }
}

impl TryFrom<[u8; 64]> for TradingPair {
    type Error = Error;

    /// Reads a trading pair from its 64 bytes; a half that is no canonical asset
    /// identifier is a deserialization error.
    fn try_from(bytes: [u8; 64]) -> (out: Result<TradingPair, Error>)
        ensures
            out matches Ok(pair) ==> TradingPairView::parse(bytes@) == Some(pair@),
            out is Err ==> TradingPairView::parse(bytes@) is None,
            out matches Err(e) ==> e == Error::SwapDeserializationError,
    {
        match TradingPair::from_bytes(&bytes) {
            Some(pair) => {
                proof {
                    pair.lemma_pair_of_view();
                }
                Ok(pair)
            },
            None => Err(Error::SwapDeserializationError),
        }
    }
}

impl vstd::std_specs::convert::TryFromSpecImpl<[u8; 64]> for TradingPair {
    open spec fn obeys_try_from_spec() -> bool {
        true
    }

    open spec fn try_from_spec(bytes: [u8; 64]) -> Result<TradingPair, Error> {
        match TradingPairView::parse(bytes@) {
            None => Err(Error::SwapDeserializationError),
            Some(view) => Ok(view.pair()),
        }
    }
}

} // verus!
