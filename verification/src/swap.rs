//! The swap plaintext, its canonical 153-byte layout, and its encryption.

use crate::aead::{aead_open, aead_seal, open, seal};
use crate::asset::{is_asset_id, Id as AssetId};
use crate::field::fr_modulus;
use crate::group::{element_decodes, scalar_mul, Element};
use crate::ka;
use crate::kdf::{blake2b_256, hash_256};
use crate::keys::OutgoingViewingKey;
use crate::octets::{array_from_slice, join, le_nat, lemma_array_eq};
use crate::transaction::Fee;
use vstd::bytes::{
    lemma_auto_spec_u64_to_from_le_bytes, spec_u64_from_le_bytes, spec_u64_to_le_bytes,
    u64_from_le_bytes, u64_to_le_bytes,
};
use vstd::pervasive::unreached;
use vstd::prelude::*;
use vstd::slice::slice_subrange;

verus! {

/// The length of a swap ciphertext in bytes.
pub const SWAP_CIPHERTEXT_BYTES: usize = 169;

/// The length of a swap plaintext in bytes.
pub const SWAP_LEN_BYTES: usize = 153;

/// The length of a wrapped outgoing key in bytes.
pub const OVK_WRAPPED_LEN_BYTES: usize = 80;

/// The length of the encryption nonce in bytes.
pub const NONCE_BYTES: usize = 12;

/// The type tag that leads every swap plaintext. Other values are kept for swap
/// types to come, and are not read as this one.
pub const SWAP_TYPE: u8 = 0;

/// What can go wrong when a swap is read or decrypted.
#[derive(Clone, Copy, Debug, PartialEq, Eq)]
pub enum Error {
    /// The leading type tag is not `SWAP_TYPE`.
    SwapTypeUnsupported,
    /// The bytes have the wrong length, or a field in them is malformed.
    SwapDeserializationError,
    /// The authentication tag did not verify.
    DecryptionError,
}

impl Error {
    /// The error in words.
    pub fn message(&self) -> (out: &'static str)
        ensures
            out@ == match *self {
                Error::SwapTypeUnsupported => "Swap type unsupported"@,
                Error::SwapDeserializationError => "Swap deserialization error"@,
                Error::DecryptionError => "Decryption error"@,
            },
    {
        match self {
            Error::SwapTypeUnsupported => "Swap type unsupported",
            Error::SwapDeserializationError => "Swap deserialization error",
            Error::DecryptionError => "Decryption error",
        }
    }
}

/// The nonce used for swap encryption: twelve zero bytes.
pub open spec fn nonce() -> Seq<u8> {
    Seq::new(NONCE_BYTES as nat, |i: int| 0u8)
}

/// The nonce used for swap encryption.
///
/// The nonce is always twelve zero bytes, which is sound only because every key
/// it is used with is derived from a fresh ephemeral secret and seals one message.
pub fn swap_encryption_nonce() -> (out: [u8; 12])
    ensures
        out@ == nonce(),
{
    let out = [0u8; 12];
    assert(out@ =~= nonce());
    out
}

/// An ordered pair of assets. The two positions are not interchangeable.
#[derive(Clone, Copy, Debug, PartialEq, Eq)]
pub struct TradingPair {
    pub asset_1: AssetId,
    pub asset_2: AssetId,
}

/// A trading pair as two byte strings.
#[verifier::ext_equal]
pub struct TradingPairView {
    pub asset_1: Seq<u8>,
    pub asset_2: Seq<u8>,
}

impl TradingPairView {
    /// Both identifiers are canonical.
    pub open spec fn wf(self) -> bool {
        is_asset_id(self.asset_1) && is_asset_id(self.asset_2)
    }

    /// The 64 bytes of the pair: the first asset, then the second.
    pub open spec fn encoding(self) -> Seq<u8> {
        self.asset_1 + self.asset_2
    }

    /// The pair that 64 bytes spell, where both halves are canonical identifiers.
    pub open spec fn parse(bytes: Seq<u8>) -> Option<TradingPairView> {
        let pair = TradingPairView {
            asset_1: bytes.subrange(0, 32),
            asset_2: bytes.subrange(32, 64),
        };
        if bytes.len() == 64 && pair.wf() {
            Some(pair)
        } else {
            None
        }
    }

    /// The trading pair that has this model.
    pub open spec fn pair(self) -> TradingPair {
        choose|pair: TradingPair| pair@ == self
    }
}

impl View for TradingPair {
    type V = TradingPairView;

    open spec fn view(&self) -> TradingPairView {
        TradingPairView { asset_1: self.asset_1@, asset_2: self.asset_2@ }
    }
}

impl TradingPair {
    /// Convert the trading pair to bytes.
    pub fn to_bytes(&self) -> (out: [u8; 64])
        ensures
            out@ == self@.encoding(),
    {
        let mut bytes: Vec<u8> = Vec::new();
        let first = self.asset_1.to_bytes();
        let second = self.asset_2.to_bytes();
        bytes.extend_from_slice(first.as_slice());
        bytes.extend_from_slice(second.as_slice());
        let out = array_from_slice::<64>(bytes.as_slice(), 0);
        assert(out@ =~= self@.encoding());
        out
    }

    /// Reads a trading pair from its 64 bytes; `None` where one half is no
    /// canonical asset identifier.
    pub fn from_bytes(bytes: &[u8; 64]) -> (out: Option<TradingPair>)
        ensures
            out is Some <==> TradingPairView::parse(bytes@) is Some,
            out matches Some(pair) ==> TradingPairView::parse(bytes@) == Some(pair@),
    {
        let first = array_from_slice::<32>(bytes.as_slice(), 0);
        let second = array_from_slice::<32>(bytes.as_slice(), 32);
        match AssetId::from_bytes(first) {
            None => None,
            Some(asset_1) => match AssetId::from_bytes(second) {
                None => None,
                Some(asset_2) => Some(TradingPair { asset_1, asset_2 }),
            },
        }
    }

    /// Two pairs with the same bytes are the same pair.
    pub proof fn lemma_view_injective(a: TradingPair, b: TradingPair)
        requires
            a@ == b@,
        ensures
            a == b,
    {
        AssetId::lemma_view_injective(a.asset_1, b.asset_1);
        AssetId::lemma_view_injective(a.asset_2, b.asset_2);
    }

    /// A pair is the pair that has its model.
    pub proof fn lemma_pair_of_view(self)
        ensures
            self@.pair() == self,
    {
        TradingPair::lemma_view_injective(self@.pair(), self);
    }
}

/// A swap before encryption: what is offered, to whom, and at what fee.
#[derive(Clone, Copy, Debug, PartialEq, Eq)]
pub struct SwapPlaintext {
    /// Trading pair for the swap
    pub trading_pair: TradingPair,
    /// Amount of asset 1
    pub t1: u64,
    /// Amount of asset 2
    pub t2: u64,
    /// Fee
    pub fee: Fee,
    /// Diversified basepoint
    pub b_d: Element,
    /// Diversified public key
    pub pk_d: ka::Public,
}

/// A swap plaintext as plain values: the model that the layout and the
/// encryption are stated over.
#[verifier::ext_equal]
pub struct SwapPlaintextView {
    pub trading_pair: TradingPairView,
    pub t1: u64,
    pub t2: u64,
    pub fee: u64,
    pub b_d: Seq<u8>,
    pub pk_d: Seq<u8>,
}

impl SwapPlaintextView {
    /// The asset identifiers are canonical, the basepoint decodes, and the
    /// transmission key has 32 bytes. Nothing is asked of what those 32 bytes
    /// encode.
    pub open spec fn wf(self) -> bool {
        &&& self.trading_pair.wf()
        &&& self.b_d.len() == 32
        &&& element_decodes(self.b_d)
        &&& self.pk_d.len() == 32
    }

    /// The canonical 153 bytes: the type tag, the trading pair, the two amounts
    /// and the fee in little-endian order, the transmission key, the basepoint.
    pub open spec fn encoding(self) -> Seq<u8> {
        seq![SWAP_TYPE] + self.trading_pair.encoding() + spec_u64_to_le_bytes(self.t1)
            + spec_u64_to_le_bytes(self.t2) + spec_u64_to_le_bytes(self.fee) + self.pk_d
            + self.b_d
    }

    /// The fields that stand in 153 bytes, whatever they hold.
    pub open spec fn fields_of(bytes: Seq<u8>) -> SwapPlaintextView {
        SwapPlaintextView {
            trading_pair: TradingPairView {
                asset_1: bytes.subrange(1, 33),
                asset_2: bytes.subrange(33, 65),
            },
            t1: spec_u64_from_le_bytes(bytes.subrange(65, 73)),
            t2: spec_u64_from_le_bytes(bytes.subrange(73, 81)),
            fee: spec_u64_from_le_bytes(bytes.subrange(81, 89)),
            pk_d: bytes.subrange(89, 121),
            b_d: bytes.subrange(121, 153),
        }
    }

    /// What reading `bytes` as a swap plaintext gives. A wrong length is a
    /// deserialization error; then a wrong type tag is an unsupported type; then
    /// a malformed field is a deserialization error.
    pub open spec fn parse(bytes: Seq<u8>) -> Result<SwapPlaintextView, Error> {
        if bytes.len() != SWAP_LEN_BYTES {
            Err(Error::SwapDeserializationError)
        } else if bytes[0] != SWAP_TYPE {
            Err(Error::SwapTypeUnsupported)
        } else if !Self::fields_of(bytes).wf() {
            Err(Error::SwapDeserializationError)
        } else {
            Ok(Self::fields_of(bytes))
        }
    }

    /// The swap plaintext that has this model.
    pub open spec fn plaintext(self) -> SwapPlaintext {
        choose|swap: SwapPlaintext| swap@ == self
    }

    /// A well-formed plaintext has a layout of 153 bytes, and reading that
    /// layout gives the plaintext back.
    pub proof fn lemma_parse_encoding(self)
        requires
            self.wf(),
        ensures
            self.encoding().len() == SWAP_LEN_BYTES,
            Self::parse(self.encoding()) == Ok::<SwapPlaintextView, Error>(self),
    {
        lemma_auto_spec_u64_to_from_le_bytes();
        let bytes = self.encoding();
        let fields = Self::fields_of(bytes);
        assert(bytes.subrange(1, 33) =~= self.trading_pair.asset_1);
        assert(bytes.subrange(33, 65) =~= self.trading_pair.asset_2);
        assert(bytes.subrange(65, 73) =~= spec_u64_to_le_bytes(self.t1));
        assert(bytes.subrange(73, 81) =~= spec_u64_to_le_bytes(self.t2));
        assert(bytes.subrange(81, 89) =~= spec_u64_to_le_bytes(self.fee));
        assert(bytes.subrange(89, 121) =~= self.pk_d);
        assert(bytes.subrange(121, 153) =~= self.b_d);
        assert(fields =~= self);
    }
}

impl View for SwapPlaintext {
    type V = SwapPlaintextView;

    open spec fn view(&self) -> SwapPlaintextView {
        SwapPlaintextView {
            trading_pair: self.trading_pair@,
            t1: self.t1,
            t2: self.t2,
            fee: self.fee.0,
            b_d: self.b_d@,
            pk_d: self.pk_d@,
        }
    }
}

impl SwapPlaintext {
    /// The diversified generator that the recipient's address carries.
    pub fn diversified_generator(&self) -> (out: Element)
        ensures
            out == self.b_d,
    {
        self.b_d
    }

    /// The recipient's diversified transmission key.
    pub fn transmission_key(&self) -> (out: ka::Public)
        ensures
            out == self.pk_d,
    {
        self.pk_d
    }

    /// Puts a plaintext together from its parts. This always succeeds: neither
    /// the basepoint nor the transmission key is checked beyond what its type
    /// already holds.
    pub fn from_parts(
        trading_pair: TradingPair,
        t1: u64,
        t2: u64,
        fee: Fee,
        b_d: Element,
        pk_d: ka::Public,
    ) -> (out: Result<SwapPlaintext, Error>)
        ensures
            out == Ok::<SwapPlaintext, Error>(
                SwapPlaintext { trading_pair, t1, t2, fee, b_d, pk_d },
            ),
    {
        Ok(SwapPlaintext { trading_pair, t1, t2, fee, b_d, pk_d })
    }

    /// The plaintext's canonical layout as a vector of 153 bytes.
    pub fn to_vec(&self) -> (out: Vec<u8>)
        ensures
            out@ == self@.encoding(),
            out@.len() == SWAP_LEN_BYTES,
    {
        proof {
            lemma_auto_spec_u64_to_from_le_bytes();
        }
        let mut bytes: Vec<u8> = Vec::new();
        bytes.push(SWAP_TYPE);
        let pair = self.trading_pair.to_bytes();
        bytes.extend_from_slice(pair.as_slice());
        let t1 = u64_to_le_bytes(self.t1);
        bytes.extend_from_slice(t1.as_slice());
        let t2 = u64_to_le_bytes(self.t2);
        bytes.extend_from_slice(t2.as_slice());
        let fee = u64_to_le_bytes(self.fee.0);
        bytes.extend_from_slice(fee.as_slice());
        bytes.extend_from_slice(self.pk_d.0.as_slice());
        let b_d = self.b_d.compress();
        bytes.extend_from_slice(b_d.as_slice());
        assert(bytes@ =~= self@.encoding());
        bytes
    }

    /// The plaintext's canonical layout as an array of 153 bytes.
    pub fn to_bytes(&self) -> (out: [u8; 153])
        ensures
            out@ == self@.encoding(),
    {
        let bytes = self.to_vec();
        let out = array_from_slice::<153>(bytes.as_slice(), 0);
        assert(out@ =~= self@.encoding());
        out
    }

    /// Reads a plaintext from its canonical layout.
    pub fn from_slice(bytes: &[u8]) -> (out: Result<SwapPlaintext, Error>)
        ensures
            out matches Ok(swap) ==> SwapPlaintextView::parse(bytes@) == Ok::<
                SwapPlaintextView,
                Error,
            >(swap@),
            out matches Err(e) ==> SwapPlaintextView::parse(bytes@) == Err::<
                SwapPlaintextView,
                Error,
            >(e),
            bytes@.len() != SWAP_LEN_BYTES ==> out == Err::<SwapPlaintext, Error>(
                Error::SwapDeserializationError,
            ),
            bytes@.len() == SWAP_LEN_BYTES && bytes@[0] != SWAP_TYPE ==> out == Err::<
                SwapPlaintext,
                Error,
            >(Error::SwapTypeUnsupported),
    {
        if bytes.len() != SWAP_LEN_BYTES {
            return Err(Error::SwapDeserializationError);
        }
        if bytes[0] != SWAP_TYPE {
            return Err(Error::SwapTypeUnsupported);
        }
        let tp_bytes = array_from_slice::<64>(bytes, 1);
        let t1 = u64_from_le_bytes(slice_subrange(bytes, 65, 73));
        let t2 = u64_from_le_bytes(slice_subrange(bytes, 73, 81));
        let fee = u64_from_le_bytes(slice_subrange(bytes, 81, 89));
        let pk_d_bytes = array_from_slice::<32>(bytes, 89);
        let b_d_bytes = array_from_slice::<32>(bytes, 121);
        proof {
            let fields = SwapPlaintextView::fields_of(bytes@);
            assert(tp_bytes@.subrange(0, 32) =~= fields.trading_pair.asset_1);
            assert(tp_bytes@.subrange(32, 64) =~= fields.trading_pair.asset_2);
        }
        let trading_pair = match TradingPair::from_bytes(&tp_bytes) {
            Some(pair) => pair,
            None => {
                return Err(Error::SwapDeserializationError);
            },
        };
        let b_d = match Element::decompress(&b_d_bytes) {
            Some(element) => element,
            None => {
                return Err(Error::SwapDeserializationError);
            },
        };
        let swap = SwapPlaintext {
            trading_pair,
            t1,
            t2,
            fee: Fee(fee),
            b_d,
            pk_d: ka::Public(pk_d_bytes),
        };
        assert(swap@ =~= SwapPlaintextView::fields_of(bytes@));
        Ok(swap)
    }

    /// Reads a plaintext from an array of 153 bytes.
    pub fn from_bytes(bytes: &[u8; 153]) -> (out: Result<SwapPlaintext, Error>)
        ensures
            out matches Ok(swap) ==> SwapPlaintextView::parse(bytes@) == Ok::<
                SwapPlaintextView,
                Error,
            >(swap@),
            out matches Err(e) ==> SwapPlaintextView::parse(bytes@) == Err::<
                SwapPlaintextView,
                Error,
            >(e),
    {
        SwapPlaintext::from_slice(bytes.as_slice())
    }

    /// Two plaintexts with the same model are the same plaintext.
    pub proof fn lemma_view_injective(a: SwapPlaintext, b: SwapPlaintext)
        requires
            a@ == b@,
        ensures
            a == b,
    {
        TradingPair::lemma_view_injective(a.trading_pair, b.trading_pair);
        Element::lemma_view_injective(a.b_d, b.b_d);
        lemma_array_eq(a.pk_d.0, b.pk_d.0);
    }

    /// A plaintext is the plaintext that has its model.
    pub proof fn lemma_plaintext_of_view(self)
        ensures
            self@.plaintext() == self,
    {
        SwapPlaintext::lemma_view_injective(self@.plaintext(), self);
    }
}

/// The key that a swap is sealed under: the digest of the shared secret followed
/// by the ephemeral public key.
pub open spec fn symmetric_key(shared_secret: Seq<u8>, epk: Seq<u8>) -> Seq<u8> {
    blake2b_256(shared_secret + epk)
}

/// The key that wraps the sender's copy of the swap's keys: the digest of the
/// outgoing viewing key followed by the ephemeral public key.
pub open spec fn outgoing_cipher_key(ovk: Seq<u8>, epk: Seq<u8>) -> Seq<u8> {
    blake2b_256(ovk + epk)
}

/// The key that the ephemeral secret `esk` gives for the recipient `pk_d` under
/// the basepoint `b_d`.
pub open spec fn swap_key(esk: Seq<u8>, pk_d: Seq<u8>, b_d: Seq<u8>) -> Seq<u8> {
    symmetric_key(scalar_mul(esk, pk_d), scalar_mul(esk, b_d))
}

/// The ciphertext of `swap` under the ephemeral secret `esk`.
pub open spec fn sealed_swap(swap: SwapPlaintextView, esk: Seq<u8>) -> Seq<u8> {
    aead_seal(swap_key(esk, swap.pk_d, swap.b_d), nonce(), swap.encoding())
}

/// What opening `ciphertext` under `key` gives: a decryption error where the tag
/// does not verify, and else what the opened bytes parse to.
pub open spec fn opened_swap(ciphertext: Seq<u8>, key: Seq<u8>) -> Result<
    SwapPlaintextView,
    Error,
> {
    match aead_open(key, nonce(), ciphertext) {
        None => Err(Error::DecryptionError),
        Some(bytes) => SwapPlaintextView::parse(bytes),
    }
}

/// What the receiver's decryption of `ciphertext` gives.
pub open spec fn decrypted_swap(
    ciphertext: Seq<u8>,
    esk: Seq<u8>,
    pk_d: Seq<u8>,
    b_d: Seq<u8>,
) -> Result<SwapPlaintextView, Error> {
    opened_swap(ciphertext, swap_key(esk, pk_d, b_d))
}

/// The wrapped keys of `swap`: the transmission key followed by the ephemeral
/// secret, sealed under the outgoing cipher key.
pub open spec fn wrapped_key(swap: SwapPlaintextView, esk: Seq<u8>, ovk: Seq<u8>) -> Seq<u8> {
    aead_seal(outgoing_cipher_key(ovk, scalar_mul(esk, swap.b_d)), nonce(), swap.pk_d + esk)
}

/// What the sender's unwrapping of `wrapped` gives: the transmission key and the
/// ephemeral secret. A tag that does not verify, or a payload that has not 64
/// bytes, is a decryption error; a transmission key that encodes no group
/// element, or a secret that spells no scalar, is a deserialization error.
pub open spec fn unwrapped_key(wrapped: Seq<u8>, ovk: Seq<u8>, epk: Seq<u8>) -> Result<
    (Seq<u8>, Seq<u8>),
    Error,
> {
    match aead_open(outgoing_cipher_key(ovk, epk), nonce(), wrapped) {
        None => Err(Error::DecryptionError),
        Some(payload) => {
            let pk_d = payload.subrange(0, 32);
            let esk = payload.subrange(32, 64);
            if payload.len() != 64 {
                Err(Error::DecryptionError)
            } else if !element_decodes(pk_d) || le_nat(esk) >= fr_modulus() {
                Err(Error::SwapDeserializationError)
            } else {
                Ok((pk_d, esk))
            }
        },
    }
}

/// What the sender's recovery of a swap gives: the keys are unwrapped, and the
/// ciphertext is opened under the key that they give with `epk`.
pub open spec fn recovered_swap(
    ciphertext: Seq<u8>,
    wrapped: Seq<u8>,
    ovk: Seq<u8>,
    epk: Seq<u8>,
) -> Result<SwapPlaintextView, Error> {
    match unwrapped_key(wrapped, ovk, epk) {
        Err(e) => Err(e),
        Ok((pk_d, esk)) => opened_swap(ciphertext, symmetric_key(scalar_mul(esk, pk_d), epk)),
    }
}

impl SwapPlaintext {
    /// Use Blake2b-256 to derive the key that a swap is sealed under from the
    /// shared secret and the ephemeral public key.
    fn derive_symmetric_key(shared_secret: &ka::SharedSecret, epk: &ka::Public) -> (out: [u8; 32])
        ensures
            out@ == symmetric_key(shared_secret@, epk@),
    {
        let input = join(shared_secret.0.as_slice(), epk.0.as_slice());
        hash_256(input.as_slice())
    }

    /// Use Blake2b-256 to derive an encryption key `ock` from the OVK and public fields.
    pub fn derive_ock(ovk: &OutgoingViewingKey, epk: &ka::Public) -> (out: [u8; 32])
        ensures
            out@ == outgoing_cipher_key(ovk@, epk@),
    {
        let input = join(ovk.0.as_slice(), epk.0.as_slice());
        hash_256(input.as_slice())
    }

    /// Generate encrypted outgoing cipher key for use with this swap.
    ///
    /// The result holds the transmission key and the ephemeral secret, sealed
    /// under a key that the sender can derive again from its outgoing viewing
    /// key. The nonce is that of the swap encryption; the keys differ, so it is
    /// used once under each. Unwrapping the result with the same viewing key and
    /// the swap's ephemeral public key gives both back, where the transmission
    /// key encodes a group element.
    pub fn encrypt_key(&self, esk: &ka::Secret, ovk: &OutgoingViewingKey) -> (out: [u8; 80])
        ensures
            out@ == wrapped_key(self@, esk@, ovk@),
            out@.len() == OVK_WRAPPED_LEN_BYTES,
            unwrapped_key(out@, ovk@, scalar_mul(esk@, self.b_d@)) == (if element_decodes(
                self.pk_d@,
            ) {
                Ok::<(Seq<u8>, Seq<u8>), Error>((self.pk_d@, esk@))
            } else {
                Err::<(Seq<u8>, Seq<u8>), Error>(Error::SwapDeserializationError)
            }),
    {
        let epk = esk.diversified_public(&self.diversified_generator());
        let ock = SwapPlaintext::derive_ock(ovk, &epk);
        let esk_bytes = esk.to_bytes();
        let op = join(self.transmission_key().0.as_slice(), esk_bytes.as_slice());
        let nonce = swap_encryption_nonce();
        let sealed = match seal(&ock, &nonce, op.as_slice()) {
            Some(sealed) => sealed,
            None => unreached(),
        };
        let wrapped = array_from_slice::<80>(sealed.as_slice(), 0);
        proof {
            use_type_invariant(esk);
            assert(wrapped@ =~= sealed@);
            assert(op@.subrange(0, 32) =~= self.pk_d@);
            assert(op@.subrange(32, 64) =~= esk@);
        }
        wrapped
    }

    /// Unwraps the keys of a swap as its sender does, from the outgoing viewing
    /// key and the swap's ephemeral public key.
    pub fn decrypt_key(wrapped: &[u8; 80], ovk: &OutgoingViewingKey, epk: &ka::Public) -> (out:
        Result<(ka::Public, ka::Secret), Error>)
        ensures
            out matches Ok(keys) ==> unwrapped_key(wrapped@, ovk@, epk@) == Ok::<
                (Seq<u8>, Seq<u8>),
                Error,
            >((keys.0@, keys.1@)),
            out matches Err(e) ==> unwrapped_key(wrapped@, ovk@, epk@) == Err::<
                (Seq<u8>, Seq<u8>),
                Error,
            >(e),
    {
        let ock = SwapPlaintext::derive_ock(ovk, epk);
        let nonce = swap_encryption_nonce();
        let payload = match open(&ock, &nonce, wrapped.as_slice()) {
            Some(payload) => payload,
            None => {
                return Err(Error::DecryptionError);
            },
        };
        if payload.len() != 64 {
            return Err(Error::DecryptionError);
        }
        let transmission_key = ka::Public(array_from_slice::<32>(payload.as_slice(), 0));
        let esk_bytes = array_from_slice::<32>(payload.as_slice(), 32);
        if !transmission_key.is_valid() {
            return Err(Error::SwapDeserializationError);
        }
        match ka::Secret::from_bytes(esk_bytes) {
            Some(esk) => Ok((transmission_key, esk)),
            None => Err(Error::SwapDeserializationError),
        }
    }

    /// Encrypts the swap for the holder of the transmission key.
    ///
    /// The key agreement behind it needs a transmission key that encodes a group
    /// element. The receiver's decryption of the result, with the same ephemeral
    /// secret, transmission key and basepoint, gives the swap back.
    pub fn encrypt(&self, esk: &ka::Secret) -> (out: SwapCiphertext)
        requires
            element_decodes(self.pk_d@),
        ensures
            out@ == sealed_swap(self@, esk@),
            out@.len() == SWAP_CIPHERTEXT_BYTES,
            decrypted_swap(out@, esk@, self.pk_d@, self.b_d@) == Ok::<SwapPlaintextView, Error>(
                self@,
            ),
    {
        let epk = esk.diversified_public(&self.diversified_generator());
        let shared_secret = match esk.key_agreement_with(&self.transmission_key()) {
            Some(shared_secret) => shared_secret,
            None => unreached(),
        };
        let key = SwapPlaintext::derive_symmetric_key(&shared_secret, &epk);
        let nonce = swap_encryption_nonce();
        let swap_plaintext = self.to_vec();
        let sealed = match seal(&key, &nonce, swap_plaintext.as_slice()) {
            Some(sealed) => sealed,
            None => unreached(),
        };
        let ciphertext = array_from_slice::<169>(sealed.as_slice(), 0);
        proof {
            assert(ciphertext@ =~= sealed@);
            use_type_invariant(&self.trading_pair.asset_1);
            use_type_invariant(&self.trading_pair.asset_2);
            use_type_invariant(&self.b_d);
            self@.lemma_parse_encoding();
        }
        SwapCiphertext(ciphertext)
    }

    /// Encrypts the swap where its transmission key admits a key agreement, and
    /// returns `None` where it does not.
    pub fn try_encrypt(&self, esk: &ka::Secret) -> (out: Option<SwapCiphertext>)
        ensures
            out is Some <==> element_decodes(self.pk_d@),
            out matches Some(ciphertext) ==> ciphertext@ == sealed_swap(self@, esk@),
            out matches Some(ciphertext) ==> decrypted_swap(
                ciphertext@,
                esk@,
                self.pk_d@,
                self.b_d@,
            ) == Ok::<SwapPlaintextView, Error>(self@),
    {
        if self.pk_d.is_valid() {
            Some(self.encrypt(esk))
        } else {
            None
        }
    }
}

/// What a sender publishes for a swap: the ciphertext for the receiver, the
/// wrapped keys for the sender itself, and the ephemeral public key.
#[derive(Clone, Copy, Debug, PartialEq, Eq)]
pub struct SwapPayload {
    pub ciphertext: SwapCiphertext,
    pub wrapped_ovk: [u8; 80],
    pub epk: ka::Public,
}

impl SwapPlaintext {
    /// Encrypts the swap for its receiver and wraps its keys for its sender.
    ///
    /// The key agreement behind it needs a transmission key that encodes a group
    /// element. Both parties get the swap back from the result: the receiver by
    /// decrypting the ciphertext, the sender by unwrapping the keys with its
    /// outgoing viewing key and opening the ciphertext under them.
    pub fn encrypt_payload(&self, esk: &ka::Secret, ovk: &OutgoingViewingKey) -> (out: SwapPayload)
        requires
            element_decodes(self.pk_d@),
        ensures
            out.ciphertext@ == sealed_swap(self@, esk@),
            out.wrapped_ovk@ == wrapped_key(self@, esk@, ovk@),
            out.epk@ == scalar_mul(esk@, self.b_d@),
            decrypted_swap(out.ciphertext@, esk@, self.pk_d@, self.b_d@) == Ok::<
                SwapPlaintextView,
                Error,
            >(self@),
            unwrapped_key(out.wrapped_ovk@, ovk@, out.epk@) == Ok::<(Seq<u8>, Seq<u8>), Error>(
                (self.pk_d@, esk@),
            ),
            recovered_swap(out.ciphertext@, out.wrapped_ovk@, ovk@, out.epk@) == Ok::<
                SwapPlaintextView,
                Error,
            >(self@),
    {
        let epk = esk.diversified_public(&self.diversified_generator());
        let ciphertext = self.encrypt(esk);
        let wrapped_ovk = self.encrypt_key(esk, ovk);
        SwapPayload { ciphertext, wrapped_ovk, epk }
    }

    /// Encrypts the swap and wraps its keys where its transmission key admits a
    /// key agreement, and returns `None` where it does not.
    pub fn try_encrypt_payload(&self, esk: &ka::Secret, ovk: &OutgoingViewingKey) -> (out: Option<
        SwapPayload,
    >)
        ensures
            out is Some <==> element_decodes(self.pk_d@),
            out matches Some(payload) ==> payload.ciphertext@ == sealed_swap(self@, esk@),
            out matches Some(payload) ==> payload.wrapped_ovk@ == wrapped_key(self@, esk@, ovk@),
            out matches Some(payload) ==> payload.epk@ == scalar_mul(esk@, self.b_d@),
            out matches Some(payload) ==> recovered_swap(
                payload.ciphertext@,
                payload.wrapped_ovk@,
                ovk@,
                payload.epk@,
            ) == Ok::<SwapPlaintextView, Error>(self@),
    {
        if self.pk_d.is_valid() {
            Some(self.encrypt_payload(esk, ovk))
        } else {
            None
        }
    }
}

/// An encrypted swap: 169 bytes, the sealed layout of a swap plaintext.
#[derive(Clone, Copy, Debug, PartialEq, Eq)]
pub struct SwapCiphertext(pub [u8; 169]);

impl View for SwapCiphertext {
    type V = Seq<u8>;

    open spec fn view(&self) -> Seq<u8> {
        self.0@
    }
}

impl SwapCiphertext {
    /// Opens the ciphertext under `key` and reads the swap in it.
    fn open_with_key(&self, key: &[u8; 32]) -> (out: Result<SwapPlaintext, Error>)
        ensures
            out matches Ok(swap) ==> opened_swap(self@, key@) == Ok::<SwapPlaintextView, Error>(
                swap@,
            ),
            out matches Err(e) ==> opened_swap(self@, key@) == Err::<SwapPlaintextView, Error>(e),
    {
        let nonce = swap_encryption_nonce();
        match open(key, &nonce, self.0.as_slice()) {
            None => Err(Error::DecryptionError),
            Some(plaintext) => SwapPlaintext::from_slice(plaintext.as_slice()),
        }
    }

    /// Decrypts the swap as its receiver does, from the ephemeral secret, the
    /// transmission key and the diversified basepoint.
    ///
    /// The key agreement behind it needs a transmission key that encodes a group
    /// element. A tag that does not verify is a decryption error; opened bytes
    /// that are no swap plaintext give the error of reading them.
    pub fn decrypt(
        &self,
        esk: &ka::Secret,
        transmission_key: ka::Public,
        diversified_basepoint: Element,
    ) -> (out: Result<SwapPlaintext, Error>)
        requires
            element_decodes(transmission_key@),
        ensures
            out matches Ok(swap) ==> decrypted_swap(
                self@,
                esk@,
                transmission_key@,
                diversified_basepoint@,
            ) == Ok::<SwapPlaintextView, Error>(swap@),
            out matches Err(e) ==> decrypted_swap(
                self@,
                esk@,
                transmission_key@,
                diversified_basepoint@,
            ) == Err::<SwapPlaintextView, Error>(e),
    {
        let shared_secret = match esk.key_agreement_with(&transmission_key) {
            Some(shared_secret) => shared_secret,
            None => unreached(),
        };
        let epk = esk.diversified_public(&diversified_basepoint);
        let key = SwapPlaintext::derive_symmetric_key(&shared_secret, &epk);
        self.open_with_key(&key)
    }

    /// Decrypts the swap where the transmission key admits a key agreement, and
    /// returns `None` where it does not.
    pub fn try_decrypt(
        &self,
        esk: &ka::Secret,
        transmission_key: ka::Public,
        diversified_basepoint: Element,
    ) -> (out: Option<Result<SwapPlaintext, Error>>)
        ensures
            out is Some <==> element_decodes(transmission_key@),
            out matches Some(Ok(swap)) ==> decrypted_swap(
                self@,
                esk@,
                transmission_key@,
                diversified_basepoint@,
            ) == Ok::<SwapPlaintextView, Error>(swap@),
            out matches Some(Err(e)) ==> decrypted_swap(
                self@,
                esk@,
                transmission_key@,
                diversified_basepoint@,
            ) == Err::<SwapPlaintextView, Error>(e),
    {
        if transmission_key.is_valid() {
            Some(self.decrypt(esk, transmission_key, diversified_basepoint))
        } else {
            None
        }
    }

    /// Decrypts the swap as its sender does: the keys are unwrapped with the
    /// outgoing viewing key, and the ciphertext is opened under the key that they
    /// give with the ephemeral public key.
    pub fn decrypt_outgoing(
        &self,
        wrapped: &[u8; 80],
        ovk: &OutgoingViewingKey,
        epk: &ka::Public,
    ) -> (out: Result<SwapPlaintext, Error>)
        ensures
            out matches Ok(swap) ==> recovered_swap(self@, wrapped@, ovk@, epk@) == Ok::<
                SwapPlaintextView,
                Error,
            >(swap@),
            out matches Err(e) ==> recovered_swap(self@, wrapped@, ovk@, epk@) == Err::<
                SwapPlaintextView,
                Error,
            >(e),
    {
        let (transmission_key, esk) = match SwapPlaintext::decrypt_key(wrapped, ovk, epk) {
            Ok(keys) => keys,
            Err(e) => {
                return Err(e);
            },
        };
        let shared_secret = match esk.key_agreement_with(&transmission_key) {
            Some(shared_secret) => shared_secret,
            None => unreached(),
        };
        let key = SwapPlaintext::derive_symmetric_key(&shared_secret, epk);
        self.open_with_key(&key)
    }

    /// Takes 169 bytes as a ciphertext.
    pub fn from_bytes(bytes: [u8; 169]) -> (out: SwapCiphertext)
        ensures
            out == SwapCiphertext(bytes),
    {
        SwapCiphertext(bytes)
    }

    /// Takes a slice as a ciphertext; `None` where it has not 169 bytes.
    pub fn from_slice(slice: &[u8]) -> (out: Option<SwapCiphertext>)
        ensures
            out is Some <==> slice@.len() == SWAP_CIPHERTEXT_BYTES,
            out matches Some(ciphertext) ==> ciphertext@ == slice@,
    {
        if slice.len() != SWAP_CIPHERTEXT_BYTES {
            return None;
        }
        let bytes = array_from_slice::<169>(slice, 0);
        assert(bytes@ =~= slice@);
        Some(SwapCiphertext(bytes))
    }
}

} // verus!
