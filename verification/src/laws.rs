//! What holds between the operations on a swap, whatever the values.
//!
//! Each law speaks of the results of calls: `call_ensures(f, args, out)` says
//! that `out` is something `f` may return on `args`.

use crate::group::element_decodes;
use crate::ka;
use crate::keys::OutgoingViewingKey;
use crate::octets::lemma_array_eq;
use crate::proto;
use crate::proto::ConversionError;
use crate::swap::{
    Error, SwapCiphertext, SwapPlaintext, SwapPlaintextView, OVK_WRAPPED_LEN_BYTES,
    SWAP_CIPHERTEXT_BYTES, SWAP_LEN_BYTES, SWAP_TYPE,
};
use vstd::prelude::*;

verus! {

/// The receiver gets the swap back: decrypting what `encrypt` returned, with the
/// same ephemeral secret and the swap's own transmission key and basepoint, gives
/// the swap.
pub proof fn lemma_decrypt_inverts_encrypt(
    swap: SwapPlaintext,
    esk: ka::Secret,
    ciphertext: SwapCiphertext,
    decrypted: Result<SwapPlaintext, Error>,
)
    requires
        element_decodes(swap.pk_d@),
        call_ensures(SwapPlaintext::encrypt, (&swap, &esk), ciphertext),
        call_ensures(
            SwapCiphertext::decrypt,
            (&ciphertext, &esk, swap.pk_d, swap.b_d),
            decrypted,
        ),
    ensures
        decrypted == Ok::<SwapPlaintext, Error>(swap),
{
    match decrypted {
        Ok(other) => {
            SwapPlaintext::lemma_view_injective(other, swap);
        },
        Err(_) => {},
    }
}

/// The sender gets the keys back: unwrapping what `encrypt_key` returned, with
/// the same outgoing viewing key and the swap's ephemeral public key, gives the
/// swap's transmission key and the ephemeral secret.
pub proof fn lemma_decrypt_key_inverts_encrypt_key(
    swap: SwapPlaintext,
    esk: ka::Secret,
    ovk: OutgoingViewingKey,
    epk: ka::Public,
    wrapped: [u8; 80],
    unwrapped: Result<(ka::Public, ka::Secret), Error>,
)
    requires
        element_decodes(swap.pk_d@),
        call_ensures(ka::Secret::diversified_public, (&esk, &swap.b_d), epk),
        call_ensures(SwapPlaintext::encrypt_key, (&swap, &esk, &ovk), wrapped),
        call_ensures(SwapPlaintext::decrypt_key, (&wrapped, &ovk, &epk), unwrapped),
    ensures
        unwrapped == Ok::<(ka::Public, ka::Secret), Error>((swap.pk_d, esk)),
{
    match unwrapped {
        Ok(keys) => {
            lemma_array_eq(keys.0.0, swap.pk_d.0);
            ka::Secret::lemma_view_injective(keys.1, esk);
        },
        Err(_) => {},
    }
}

/// The sender gets the swap back: with the keys that `decrypt_key` recovers from
/// what `encrypt_key` returned, decrypting what `encrypt` returned gives the
/// swap.
pub proof fn lemma_recovered_keys_decrypt(
    swap: SwapPlaintext,
    esk: ka::Secret,
    ovk: OutgoingViewingKey,
    epk: ka::Public,
    ciphertext: SwapCiphertext,
    wrapped: [u8; 80],
    keys: (ka::Public, ka::Secret),
    decrypted: Result<SwapPlaintext, Error>,
)
    requires
        element_decodes(swap.pk_d@),
        call_ensures(ka::Secret::diversified_public, (&esk, &swap.b_d), epk),
        call_ensures(SwapPlaintext::encrypt, (&swap, &esk), ciphertext),
        call_ensures(SwapPlaintext::encrypt_key, (&swap, &esk, &ovk), wrapped),
        call_ensures(
            SwapPlaintext::decrypt_key,
            (&wrapped, &ovk, &epk),
            Ok::<(ka::Public, ka::Secret), Error>(keys),
        ),
        call_ensures(SwapCiphertext::decrypt, (&ciphertext, &keys.1, keys.0, swap.b_d), decrypted),
    ensures
        decrypted == Ok::<SwapPlaintext, Error>(swap),
{
    lemma_decrypt_key_inverts_encrypt_key(
        swap,
        esk,
        ovk,
        epk,
        wrapped,
        Ok::<(ka::Public, ka::Secret), Error>(keys),
    );
    lemma_decrypt_inverts_encrypt(swap, esk, ciphertext, decrypted);
}

/// The sender gets the swap back in one step: `decrypt_outgoing`, on what
/// `encrypt` and `encrypt_key` returned, gives the swap.
pub proof fn lemma_decrypt_outgoing_inverts_encrypt(
    swap: SwapPlaintext,
    esk: ka::Secret,
    ovk: OutgoingViewingKey,
    epk: ka::Public,
    ciphertext: SwapCiphertext,
    wrapped: [u8; 80],
    decrypted: Result<SwapPlaintext, Error>,
)
    requires
        element_decodes(swap.pk_d@),
        call_ensures(ka::Secret::diversified_public, (&esk, &swap.b_d), epk),
        call_ensures(SwapPlaintext::encrypt, (&swap, &esk), ciphertext),
        call_ensures(SwapPlaintext::encrypt_key, (&swap, &esk, &ovk), wrapped),
        call_ensures(
            SwapCiphertext::decrypt_outgoing,
            (&ciphertext, &wrapped, &ovk, &epk),
            decrypted,
        ),
    ensures
        decrypted == Ok::<SwapPlaintext, Error>(swap),
{
    match decrypted {
        Ok(other) => {
            SwapPlaintext::lemma_view_injective(other, swap);
        },
        Err(_) => {},
    }
}

/// The layout has 153 bytes, and reading it gives the swap back.
pub proof fn lemma_from_bytes_inverts_to_bytes(
    swap: SwapPlaintext,
    bytes: [u8; 153],
    parsed: Result<SwapPlaintext, Error>,
)
    requires
        swap@.wf(),
        call_ensures(SwapPlaintext::to_bytes, (&swap,), bytes),
        call_ensures(SwapPlaintext::from_bytes, (&bytes,), parsed),
    ensures
        bytes@.len() == SWAP_LEN_BYTES,
        parsed == Ok::<SwapPlaintext, Error>(swap),
{
    swap@.lemma_parse_encoding();
    match parsed {
        Ok(other) => {
            SwapPlaintext::lemma_view_injective(other, swap);
        },
        Err(_) => {},
    }
}

/// The same for the layout as a vector, read as a slice.
pub proof fn lemma_from_slice_inverts_to_vec(
    swap: SwapPlaintext,
    bytes: Vec<u8>,
    slice: &[u8],
    parsed: Result<SwapPlaintext, Error>,
)
    requires
        swap@.wf(),
        call_ensures(SwapPlaintext::to_vec, (&swap,), bytes),
        slice@ == bytes@,
        call_ensures(SwapPlaintext::from_slice, (slice,), parsed),
    ensures
        bytes@.len() == SWAP_LEN_BYTES,
        parsed == Ok::<SwapPlaintext, Error>(swap),
{
    swap@.lemma_parse_encoding();
    match parsed {
        Ok(other) => {
            SwapPlaintext::lemma_view_injective(other, swap);
        },
        Err(_) => {},
    }
}

/// A ciphertext has 169 bytes and a wrapped key has 80.
pub proof fn lemma_sealed_lengths(
    swap: SwapPlaintext,
    esk: ka::Secret,
    ovk: OutgoingViewingKey,
    ciphertext: SwapCiphertext,
    wrapped: [u8; 80],
)
    requires
        element_decodes(swap.pk_d@),
        call_ensures(SwapPlaintext::encrypt, (&swap, &esk), ciphertext),
        call_ensures(SwapPlaintext::encrypt_key, (&swap, &esk, &ovk), wrapped),
    ensures
        ciphertext@.len() == SWAP_CIPHERTEXT_BYTES,
        wrapped@.len() == OVK_WRAPPED_LEN_BYTES,
{
}

/// The message of a swap reads back as the swap.
pub proof fn lemma_from_proto_inverts_to_proto(
    swap: SwapPlaintext,
    msg: proto::SwapPlaintext,
    read: Result<SwapPlaintext, ConversionError>,
)
    requires
        swap@.wf(),
        call_ensures(SwapPlaintext::to_proto, (&swap,), msg),
        call_ensures(SwapPlaintext::from_proto, (&msg,), read),
    ensures
        read == Ok::<SwapPlaintext, ConversionError>(swap),
{
    proto::lemma_message_round_trip(swap@);
    match read {
        Ok(other) => {
            SwapPlaintext::lemma_view_injective(other, swap);
        },
        Err(_) => {},
    }
}

/// Bytes of any length but 153 read as a deserialization error.
pub proof fn lemma_wrong_length_is_rejected(bytes: Seq<u8>)
    requires
        bytes.len() != SWAP_LEN_BYTES,
    ensures
        SwapPlaintextView::parse(bytes) == Err::<SwapPlaintextView, Error>(
            Error::SwapDeserializationError,
        ),
{
}

/// 153 bytes that lead with another type tag read as an unsupported swap type,
/// whatever follows the tag.
pub proof fn lemma_other_type_is_unsupported(bytes: Seq<u8>)
    requires
        bytes.len() == SWAP_LEN_BYTES,
        bytes[0] != SWAP_TYPE,
    ensures
        SwapPlaintextView::parse(bytes) == Err::<SwapPlaintextView, Error>(
            Error::SwapTypeUnsupported,
        ),
{
}

} // verus!
