//! The structural form of a swap, as it travels in messages, and the
//! conversions between it and the swap plaintext.
//!
//! In a message every byte field has any length and every nested field may be
//! absent. The conversions say which messages stand for a swap. They come twice:
//! as methods, and as the conversions of `std`. A message holds vectors, and a
//! vector is not determined by its bytes in specifications; so of a conversion
//! into a message only its `ensures` speaks, not `from_spec`.

use crate::asset::{is_asset_id, Id};
use crate::group::{element_decodes, Element};
use crate::ka;
use crate::octets::array_from_slice;
use crate::swap;
use crate::swap::{SwapPlaintextView, TradingPairView};
use crate::transaction;
use vstd::prelude::*;
use vstd::slice::slice_to_vec;

verus! {

/// An asset identifier in a message.
#[derive(Clone, Debug, PartialEq, Eq)]
pub struct AssetId {
    pub inner: Vec<u8>,
}

/// A trading pair in a message.
#[derive(Clone, Debug, PartialEq, Eq)]
pub struct TradingPair {
    pub asset_1: Option<AssetId>,
    pub asset_2: Option<AssetId>,
}

/// A fee in a message.
#[derive(Clone, Copy, Debug, PartialEq, Eq)]
pub struct Fee {
    pub amount: u64,
}

/// A swap plaintext in a message.
#[derive(Clone, Debug, PartialEq, Eq)]
pub struct SwapPlaintext {
    pub t1: u64,
    pub t2: u64,
    pub fee: Option<Fee>,
    pub b_d: Vec<u8>,
    pub pk_d: Vec<u8>,
    pub trading_pair: Option<TradingPair>,
}

/// The fields that a conversion can find fault with.
#[derive(Clone, Copy, Debug, PartialEq, Eq)]
pub enum Field {
    Fee,
    TradingPair,
    Asset1,
    Asset2,
    Basepoint,
    TransmissionKey,
}

/// Why a message stands for no swap.
#[derive(Clone, Copy, Debug, PartialEq, Eq)]
pub enum ConversionError {
    /// A field that must be there is absent.
    MissingField(Field),
    /// A byte field has not the 32 bytes it must have.
    InvalidLength(Field),
    /// The basepoint has 32 bytes, and they encode no group element.
    InvalidBasepoint,
    /// An asset identifier has 32 bytes, and they are not canonical.
    InvalidAssetId(Field),
}

impl ConversionError {
    /// The failure among the errors of a swap: whatever is wrong with a message,
    /// it is a deserialization error there. The finer kind serves diagnosis.
    pub fn to_swap_error(self) -> (out: swap::Error)
        ensures
            out == swap::Error::SwapDeserializationError,
    {
        swap::Error::SwapDeserializationError
    }
}

/// A trading pair message as plain values.
#[verifier::ext_equal]
pub struct TradingPairMessage {
    pub asset_1: Option<Seq<u8>>,
    pub asset_2: Option<Seq<u8>>,
}

/// A swap plaintext message as plain values.
#[verifier::ext_equal]
pub struct SwapPlaintextMessage {
    pub t1: u64,
    pub t2: u64,
    pub fee: Option<u64>,
    pub b_d: Seq<u8>,
    pub pk_d: Seq<u8>,
    pub trading_pair: Option<TradingPairMessage>,
}

impl View for AssetId {
    type V = Seq<u8>;

    open spec fn view(&self) -> Seq<u8> {
        self.inner@
    }
}

/// An optional asset identifier as plain values.
pub open spec fn asset_message(asset: Option<AssetId>) -> Option<Seq<u8>> {
    match asset {
        None => None,
        Some(id) => Some(id@),
    }
}

impl View for TradingPair {
    type V = TradingPairMessage;

    open spec fn view(&self) -> TradingPairMessage {
        TradingPairMessage {
            asset_1: asset_message(self.asset_1),
            asset_2: asset_message(self.asset_2),
        }
    }
}

impl View for SwapPlaintext {
    type V = SwapPlaintextMessage;

    open spec fn view(&self) -> SwapPlaintextMessage {
        SwapPlaintextMessage {
            t1: self.t1,
            t2: self.t2,
            fee: match self.fee {
                None => None,
                Some(fee) => Some(fee.amount),
            },
            b_d: self.b_d@,
            pk_d: self.pk_d@,
            trading_pair: match self.trading_pair {
                None => None,
                Some(pair) => Some(pair@),
            },
        }
    }
}

/// The asset identifier that an optional message field stands for. An absent
/// field is missing; one that has not 32 bytes has an invalid length; one whose
/// 32 bytes are not canonical is an invalid identifier.
pub open spec fn asset_of(asset: Option<Seq<u8>>, field: Field) -> Result<
    Seq<u8>,
    ConversionError,
> {
    match asset {
        None => Err(ConversionError::MissingField(field)),
        Some(inner) => if inner.len() != 32 {
            Err(ConversionError::InvalidLength(field))
        } else if !is_asset_id(inner) {
            Err(ConversionError::InvalidAssetId(field))
        } else {
            Ok(inner)
        },
    }
}

/// The trading pair that a message stands for: the first asset is read before
/// the second, and the first fault found is the error.
pub open spec fn trading_pair_of(pair: TradingPairMessage) -> Result<
    TradingPairView,
    ConversionError,
> {
    match asset_of(pair.asset_1, Field::Asset1) {
        Err(e) => Err(e),
        Ok(asset_1) => match asset_of(pair.asset_2, Field::Asset2) {
            Err(e) => Err(e),
            Ok(asset_2) => Ok(TradingPairView { asset_1, asset_2 }),
        },
    }
}

/// The swap plaintext that a message stands for. The faults are looked for in
/// this order, and the first one found is the error: the length of the
/// basepoint, the presence of the fee, the basepoint as a group element, the
/// length of the transmission key, the presence of the trading pair, and the
/// trading pair itself.
pub open spec fn swap_plaintext_of(msg: SwapPlaintextMessage) -> Result<
    SwapPlaintextView,
    ConversionError,
> {
    if msg.b_d.len() != 32 {
        Err(ConversionError::InvalidLength(Field::Basepoint))
    } else if msg.fee is None {
        Err(ConversionError::MissingField(Field::Fee))
    } else if !element_decodes(msg.b_d) {
        Err(ConversionError::InvalidBasepoint)
    } else if msg.pk_d.len() != 32 {
        Err(ConversionError::InvalidLength(Field::TransmissionKey))
    } else {
        match msg.trading_pair {
            None => Err(ConversionError::MissingField(Field::TradingPair)),
            Some(pair) => match trading_pair_of(pair) {
                Err(e) => Err(e),
                Ok(trading_pair) => Ok(
                    SwapPlaintextView {
                        trading_pair,
                        t1: msg.t1,
                        t2: msg.t2,
                        fee: msg.fee->0,
                        b_d: msg.b_d,
                        pk_d: msg.pk_d,
                    },
                ),
            },
        }
    }
}

/// The message that stands for a trading pair.
pub open spec fn trading_pair_message(pair: TradingPairView) -> TradingPairMessage {
    TradingPairMessage { asset_1: Some(pair.asset_1), asset_2: Some(pair.asset_2) }
}

/// The message that stands for a swap plaintext: every field is present, and
/// every byte field holds the bytes of the swap's layout.
pub open spec fn swap_plaintext_message(swap: SwapPlaintextView) -> SwapPlaintextMessage {
    SwapPlaintextMessage {
        t1: swap.t1,
        t2: swap.t2,
        fee: Some(swap.fee),
        b_d: swap.b_d,
        pk_d: swap.pk_d,
        trading_pair: Some(trading_pair_message(swap.trading_pair)),
    }
}

/// The message of a well-formed swap plaintext stands for that plaintext.
pub proof fn lemma_message_round_trip(swap: SwapPlaintextView)
    requires
        swap.wf(),
    ensures
        swap_plaintext_of(swap_plaintext_message(swap)) == Ok::<
            SwapPlaintextView,
            ConversionError,
        >(swap),
{
    let msg = swap_plaintext_message(swap);
    assert(trading_pair_of(msg.trading_pair->0) == Ok::<TradingPairView, ConversionError>(
        swap.trading_pair,
    ));
}

impl Id {
    /// The identifier as a message.
    pub fn to_proto(&self) -> (out: AssetId)
        ensures
            out@ == self@,
    {
        let bytes = self.to_bytes();
        AssetId { inner: slice_to_vec(bytes.as_slice()) }
    }

    /// Reads an identifier from an optional message field that belongs to
    /// `field`.
    pub fn from_proto(asset: &Option<AssetId>, field: Field) -> (out: Result<Id, ConversionError>)
        ensures
            out matches Ok(id) ==> asset_of(asset_message(*asset), field) == Ok::<
                Seq<u8>,
                ConversionError,
            >(id@),
            out matches Err(e) ==> asset_of(asset_message(*asset), field) == Err::<
                Seq<u8>,
                ConversionError,
            >(e),
    {
        match asset {
            None => Err(ConversionError::MissingField(field)),
            Some(id) => {
                if id.inner.len() != 32 {
                    return Err(ConversionError::InvalidLength(field));
                }
                let bytes = array_from_slice::<32>(id.inner.as_slice(), 0);
                assert(bytes@ =~= id.inner@);
                match Id::from_bytes(bytes) {
                    Some(id) => Ok(id),
                    None => Err(ConversionError::InvalidAssetId(field)),
                }
            },
        }
    }
}

impl swap::TradingPair {
    /// The trading pair as a message.
    pub fn to_proto(&self) -> (out: TradingPair)
        ensures
            out@ == trading_pair_message(self@),
    {
        TradingPair {
            asset_1: Some(self.asset_1.to_proto()),
            asset_2: Some(self.asset_2.to_proto()),
        }
    }

    /// Reads a trading pair from a message.
    pub fn from_proto(pair: &TradingPair) -> (out: Result<swap::TradingPair, ConversionError>)
        ensures
            out matches Ok(trading_pair) ==> trading_pair_of(pair@) == Ok::<
                TradingPairView,
                ConversionError,
            >(trading_pair@),
            out matches Err(e) ==> trading_pair_of(pair@) == Err::<
                TradingPairView,
                ConversionError,
            >(e),
    {
        let asset_1 = match Id::from_proto(&pair.asset_1, Field::Asset1) {
            Ok(id) => id,
            Err(e) => {
                return Err(e);
            },
        };
        let asset_2 = match Id::from_proto(&pair.asset_2, Field::Asset2) {
            Ok(id) => id,
            Err(e) => {
                return Err(e);
            },
        };
        Ok(swap::TradingPair { asset_1, asset_2 })
    }
}

impl swap::SwapPlaintext {
    /// The swap plaintext as a message.
    pub fn to_proto(&self) -> (out: SwapPlaintext)
        ensures
            out@ == swap_plaintext_message(self@),
    {
        let b_d = self.b_d.compress();
        SwapPlaintext {
            t1: self.t1,
            t2: self.t2,
            fee: Some(Fee { amount: self.fee.0 }),
            b_d: slice_to_vec(b_d.as_slice()),
            pk_d: slice_to_vec(self.pk_d.0.as_slice()),
            trading_pair: Some(self.trading_pair.to_proto()),
        }
    }

    /// Reads a swap plaintext from a message.
    pub fn from_proto(msg: &SwapPlaintext) -> (out: Result<swap::SwapPlaintext, ConversionError>)
        ensures
            out matches Ok(swap) ==> swap_plaintext_of(msg@) == Ok::<
                SwapPlaintextView,
                ConversionError,
            >(swap@),
            out matches Err(e) ==> swap_plaintext_of(msg@) == Err::<
                SwapPlaintextView,
                ConversionError,
            >(e),
    {
        if msg.b_d.len() != 32 {
            return Err(ConversionError::InvalidLength(Field::Basepoint));
        }
        let b_d_bytes = array_from_slice::<32>(msg.b_d.as_slice(), 0);
        assert(b_d_bytes@ =~= msg.b_d@);
        let fee = match msg.fee {
            Some(fee) => transaction::Fee(fee.amount),
            None => {
                return Err(ConversionError::MissingField(Field::Fee));
            },
        };
        let b_d = match Element::decompress(&b_d_bytes) {
            Some(element) => element,
            None => {
                return Err(ConversionError::InvalidBasepoint);
            },
        };
        if msg.pk_d.len() != 32 {
            return Err(ConversionError::InvalidLength(Field::TransmissionKey));
        }
        let pk_d_bytes = array_from_slice::<32>(msg.pk_d.as_slice(), 0);
        assert(pk_d_bytes@ =~= msg.pk_d@);
        let trading_pair = match &msg.trading_pair {
            Some(pair) => match swap::TradingPair::from_proto(pair) {
                Ok(trading_pair) => trading_pair,
                Err(e) => {
                    return Err(e);
                },
            },
            None => {
                return Err(ConversionError::MissingField(Field::TradingPair));
            },
        };
        let swap = swap::SwapPlaintext {
            trading_pair,
            t1: msg.t1,
            t2: msg.t2,
            fee,
            b_d,
            pk_d: ka::Public(pk_d_bytes),
        };
        assert(swap@ =~= swap_plaintext_of(msg@)->Ok_0);
        Ok(swap)
    }
}

impl TryFrom<TradingPair> for swap::TradingPair {
    type Error = ConversionError;

    /// Reads a trading pair from a message.
    fn try_from(pair: TradingPair) -> (out: Result<swap::TradingPair, ConversionError>)
        ensures
            out matches Ok(trading_pair) ==> trading_pair_of(pair@) == Ok::<
                TradingPairView,
                ConversionError,
            >(trading_pair@),
            out matches Err(e) ==> trading_pair_of(pair@) == Err::<
                TradingPairView,
                ConversionError,
            >(e),
    {
        let out = swap::TradingPair::from_proto(&pair);
        proof {
            if let Ok(trading_pair) = out {
                trading_pair.lemma_pair_of_view();
            }
        }
        out
    }
}

impl vstd::std_specs::convert::TryFromSpecImpl<TradingPair> for swap::TradingPair {
    open spec fn obeys_try_from_spec() -> bool {
        true
    }

    open spec fn try_from_spec(pair: TradingPair) -> Result<swap::TradingPair, ConversionError> {
        match trading_pair_of(pair@) {
            Err(e) => Err(e),
            Ok(view) => Ok(view.pair()),
        }
    }
}

impl From<swap::TradingPair> for TradingPair {
    /// The trading pair as a message.
    fn from(pair: swap::TradingPair) -> (out: TradingPair)
        ensures
            out@ == trading_pair_message(pair@),
    {
        pair.to_proto()
    }
}

impl vstd::std_specs::convert::FromSpecImpl<swap::TradingPair> for TradingPair {
    open spec fn obeys_from_spec() -> bool {
        false
    }

    open spec fn from_spec(pair: swap::TradingPair) -> TradingPair {
        choose|msg: TradingPair| msg@ == trading_pair_message(pair@)
    }
}

impl TryFrom<SwapPlaintext> for swap::SwapPlaintext {
    type Error = ConversionError;

    /// Reads a swap plaintext from a message.
    fn try_from(msg: SwapPlaintext) -> (out: Result<swap::SwapPlaintext, ConversionError>)
        ensures
            out matches Ok(swap) ==> swap_plaintext_of(msg@) == Ok::<
                SwapPlaintextView,
                ConversionError,
            >(swap@),
            out matches Err(e) ==> swap_plaintext_of(msg@) == Err::<
                SwapPlaintextView,
                ConversionError,
            >(e),
    {
        let out = swap::SwapPlaintext::from_proto(&msg);
        proof {
            if let Ok(swap) = out {
                swap.lemma_plaintext_of_view();
            }
        }
        out
    }
}

impl vstd::std_specs::convert::TryFromSpecImpl<SwapPlaintext> for swap::SwapPlaintext {
    open spec fn obeys_try_from_spec() -> bool {
        true
    }

    open spec fn try_from_spec(msg: SwapPlaintext) -> Result<
        swap::SwapPlaintext,
        ConversionError,
    > {
        match swap_plaintext_of(msg@) {
            Err(e) => Err(e),
            Ok(view) => Ok(view.plaintext()),
        }
    }
}

impl From<swap::SwapPlaintext> for SwapPlaintext {
    /// The swap plaintext as a message.
    fn from(swap: swap::SwapPlaintext) -> (out: SwapPlaintext)
        ensures
            out@ == swap_plaintext_message(swap@),
    {
        swap.to_proto()
    }
}

impl vstd::std_specs::convert::FromSpecImpl<swap::SwapPlaintext> for SwapPlaintext {
    open spec fn obeys_from_spec() -> bool {
        false
    }

    open spec fn from_spec(swap: swap::SwapPlaintext) -> SwapPlaintext {
        choose|msg: SwapPlaintext| msg@ == swap_plaintext_message(swap@)
    }
}

} // verus!
