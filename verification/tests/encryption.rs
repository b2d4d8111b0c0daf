use chacha20poly1305::aead::{Aead, NewAead};
use penumbra_swap::asset::Id;
use penumbra_swap::group::Element;
use penumbra_swap::ka::{Public, Secret};
use penumbra_swap::keys::OutgoingViewingKey;
use penumbra_swap::swap::{Error, SwapCiphertext, SwapPlaintext, TradingPair};
use penumbra_swap::transaction::Fee;

const ENC_BASEPOINT: [u8; 32] = [
    8, 0, 0, 0, 0, 0, 0, 0, 0, 0, 0, 0, 0, 0, 0, 0, 0, 0, 0, 0, 0, 0, 0, 0, 0, 0, 0, 0, 0, 0, 0, 0,
];

const ENC_TWO_B: [u8; 32] = [
    178, 236, 249, 185, 8, 45, 99, 6, 83, 139, 231, 59, 13, 110, 231, 65, 20, 31, 50, 34, 21, 45,
    167, 134, 133, 214, 89, 110, 252, 140, 21, 6,
];

const ENC_THREE_B: [u8; 32] = [
    46, 189, 66, 221, 58, 35, 7, 8, 60, 131, 78, 121, 251, 158, 120, 126, 53, 45, 211, 62, 13, 113,
    159, 134, 174, 74, 219, 2, 254, 56, 36, 9,
];

/// BLAKE2b-256 of the outgoing viewing key 0, 1, .., 31 followed by twice the basepoint.
const EXPECTED_OCK: [u8; 32] = [
    233, 80, 195, 156, 195, 5, 100, 110, 10, 53, 5, 192, 199, 212, 128, 238, 22, 189, 28, 55, 163,
    96, 157, 34, 129, 5, 112, 237, 245, 84, 65, 22,
];

/// The sample swap sealed with ChaCha20-Poly1305 under the key
/// BLAKE2b-256(six times the basepoint, then twice the basepoint).
const EXPECTED_CIPHERTEXT: [u8; 169] = [
    80, 1, 116, 215, 41, 239, 99, 205, 164, 54, 169, 90, 165, 44, 21, 18, 111, 78, 110, 92, 96,
    207, 32, 255, 226, 253, 223, 222, 135, 34, 160, 117, 86, 232, 7, 70, 85, 138, 225, 139, 9, 202,
    102, 31, 67, 63, 249, 227, 145, 6, 171, 212, 241, 70, 84, 247, 238, 32, 208, 167, 4, 25, 165,
    114, 178, 214, 183, 207, 228, 56, 175, 209, 138, 36, 53, 236, 58, 148, 27, 29, 97, 137, 117,
    98, 152, 98, 7, 55, 186, 55, 202, 55, 20, 168, 57, 114, 91, 53, 151, 132, 151, 190, 13, 163, 8,
    141, 62, 14, 93, 75, 194, 66, 40, 22, 188, 173, 16, 224, 180, 33, 60, 144, 187, 187, 219, 29,
    72, 188, 163, 69, 43, 141, 138, 235, 252, 167, 52, 239, 10, 86, 96, 220, 123, 56, 195, 176,
    204, 95, 99, 228, 207, 67, 66, 175, 207, 196, 75, 178, 78, 113, 168, 212, 172, 36, 139, 42,
    248, 66, 172,
];

/// The transmission key and the ephemeral secret, sealed under `EXPECTED_OCK`.
const EXPECTED_WRAPPED: [u8; 80] = [
    164, 1, 132, 247, 27, 97, 169, 63, 139, 31, 157, 250, 54, 22, 138, 216, 75, 109, 149, 16, 50,
    168, 253, 149, 50, 94, 74, 27, 161, 26, 199, 171, 93, 124, 50, 134, 230, 24, 84, 42, 45, 28,
    65, 210, 173, 211, 81, 13, 181, 65, 180, 231, 161, 173, 164, 170, 76, 42, 106, 14, 128, 231,
    152, 229, 157, 0, 49, 202, 122, 27, 23, 252, 41, 82, 113, 9, 227, 177, 199, 121,
];

fn enc_small(n: u8) -> [u8; 32] {
    let mut bytes = [0u8; 32];
    bytes[0] = n;
    bytes
}

fn enc_scalar(n: u8) -> Secret {
    Secret::from_bytes(enc_small(n)).unwrap()
}

fn enc_ovk() -> OutgoingViewingKey {
    let mut bytes = [0u8; 32];
    for (i, b) in bytes.iter_mut().enumerate() {
        *b = i as u8;
    }
    OutgoingViewingKey(bytes)
}

/// A swap of 100 of asset 1 for 0 of asset 2 at a fee of 3, for the recipient
/// whose secret is 3 under the basepoint.
fn enc_sample() -> SwapPlaintext {
    let b_d = Element::decompress(&ENC_BASEPOINT).unwrap();
    let pk_d = enc_scalar(3).diversified_public(&b_d);
    assert_eq!(pk_d, Public(ENC_THREE_B));
    SwapPlaintext::from_parts(
        TradingPair {
            asset_1: Id::from_bytes(enc_small(1)).unwrap(),
            asset_2: Id::from_bytes(enc_small(2)).unwrap(),
        },
        100,
        0,
        Fee(3),
        b_d,
        pk_d,
    )
    .unwrap()
}

/// A recipient with another basepoint and another secret.
fn enc_other_sample() -> SwapPlaintext {
    let b_d = Element::decompress(&ENC_TWO_B).unwrap();
    let pk_d = enc_scalar(77).diversified_public(&b_d);
    SwapPlaintext::from_parts(
        TradingPair {
            asset_1: Id::from_bytes(enc_small(9)).unwrap(),
            asset_2: Id::from_bytes(enc_small(1)).unwrap(),
        },
        0,
        u64::MAX,
        Fee(1 << 33),
        b_d,
        pk_d,
    )
    .unwrap()
}

#[test]
fn derive_ock_is_blake2b_of_ovk_then_epk() {
    let ock = SwapPlaintext::derive_ock(&enc_ovk(), &Public(ENC_TWO_B));
    assert_eq!(ock, EXPECTED_OCK);
}

#[test]
fn derive_ock_depends_on_both_inputs_in_order() {
    let ock = SwapPlaintext::derive_ock(&enc_ovk(), &Public(ENC_TWO_B));
    assert_ne!(ock, SwapPlaintext::derive_ock(&enc_ovk(), &Public(ENC_THREE_B)));
    assert_ne!(
        ock,
        SwapPlaintext::derive_ock(&OutgoingViewingKey(ENC_TWO_B), &Public(enc_ovk().0))
    );
    assert_ne!(ock, enc_ovk().0);
}

#[test]
fn encrypt_gives_the_expected_ciphertext() {
    let ciphertext = enc_sample().encrypt(&enc_scalar(2));
    assert_eq!(ciphertext.0.len(), 169);
    assert_eq!(ciphertext, SwapCiphertext(EXPECTED_CIPHERTEXT));
}

#[test]
fn encrypt_key_gives_the_expected_wrapping() {
    let wrapped = enc_sample().encrypt_key(&enc_scalar(2), &enc_ovk());
    assert_eq!(wrapped.len(), 80);
    assert_eq!(wrapped, EXPECTED_WRAPPED);
}

#[test]
fn swap_key_and_wrapping_key_differ() {
    let swap = enc_sample();
    let esk = enc_scalar(2);
    let ciphertext = swap.encrypt(&esk);
    let wrapped = swap.encrypt_key(&esk, &enc_ovk());
    assert_ne!(&ciphertext.0[..16], &wrapped[..16]);
    let epk = esk.diversified_public(&swap.b_d);
    let shared = esk.key_agreement_with(&swap.pk_d).unwrap();
    let as_ovk = OutgoingViewingKey(shared.0);
    assert_eq!(ciphertext.decrypt_outgoing(&wrapped, &as_ovk, &epk), Err(Error::DecryptionError));
}

#[test]
fn receiver_round_trip() {
    let swap = enc_sample();
    let esk = enc_scalar(2);
    let ciphertext = swap.encrypt(&esk);
    assert_eq!(ciphertext.0.len(), 169);
    assert_ne!(&ciphertext.0[..153], &swap.to_bytes()[..]);
    assert_eq!(ciphertext.decrypt(&esk, swap.pk_d, swap.b_d), Ok(swap));
}

#[test]
fn receiver_round_trip_on_other_values() {
    let swap = enc_other_sample();
    let mut esk_bytes = [0x5au8; 32];
    esk_bytes[31] = 0x01;
    let esk = Secret::from_bytes(esk_bytes).unwrap();
    let ciphertext = swap.encrypt(&esk);
    assert_eq!(ciphertext.decrypt(&esk, swap.pk_d, swap.b_d), Ok(swap));
    assert_eq!(ciphertext.try_decrypt(&esk, swap.pk_d, swap.b_d), Some(Ok(swap)));
}

#[test]
fn sender_recovery() {
    let swap = enc_sample();
    let esk = enc_scalar(2);
    let ovk = enc_ovk();
    let ciphertext = swap.encrypt(&esk);
    let wrapped = swap.encrypt_key(&esk, &ovk);
    assert_eq!(wrapped.len(), 80);
    let epk = esk.diversified_public(&swap.b_d);
    let (pk_d, recovered_esk) = SwapPlaintext::decrypt_key(&wrapped, &ovk, &epk).unwrap();
    assert_eq!(pk_d.0, swap.pk_d.0);
    assert_eq!(recovered_esk.to_bytes(), esk.to_bytes());
    assert_eq!(ciphertext.decrypt(&recovered_esk, pk_d, swap.b_d), Ok(swap));
    assert_eq!(ciphertext.decrypt_outgoing(&wrapped, &ovk, &epk), Ok(swap));
}

#[test]
fn payload_holds_all_three_parts() {
    let swap = enc_sample();
    let esk = enc_scalar(2);
    let ovk = enc_ovk();
    let payload = swap.encrypt_payload(&esk, &ovk);
    assert_eq!(payload.ciphertext, SwapCiphertext(EXPECTED_CIPHERTEXT));
    assert_eq!(payload.wrapped_ovk, EXPECTED_WRAPPED);
    assert_eq!(payload.epk, Public(ENC_TWO_B));
    assert_eq!(
        payload.ciphertext.decrypt_outgoing(&payload.wrapped_ovk, &ovk, &payload.epk),
        Ok(swap)
    );
    assert_eq!(swap.try_encrypt_payload(&esk, &ovk), Some(payload));
}

#[test]
fn bit_flip() {
    let swap = enc_sample();
    let esk = enc_scalar(2);
    let ciphertext = swap.encrypt(&esk);
    for i in 0..169 {
        let mut tampered = ciphertext;
        tampered.0[i] ^= 0x01;
        assert_eq!(
            tampered.decrypt(&esk, swap.pk_d, swap.b_d),
            Err(Error::DecryptionError),
            "octet {}",
            i
        );
    }
}

#[test]
fn every_single_bit_flip_is_caught() {
    let swap = enc_other_sample();
    let esk = enc_scalar(5);
    let ciphertext = swap.encrypt(&esk);
    for i in 0..169 {
        for bit in 0..8 {
            let mut tampered = ciphertext;
            tampered.0[i] ^= 1 << bit;
            assert_eq!(
                tampered.decrypt(&esk, swap.pk_d, swap.b_d),
                Err(Error::DecryptionError)
            );
        }
    }
}

#[test]
fn wrapped_key_bit_flip_is_caught() {
    let swap = enc_sample();
    let esk = enc_scalar(2);
    let ovk = enc_ovk();
    let wrapped = swap.encrypt_key(&esk, &ovk);
    let epk = esk.diversified_public(&swap.b_d);
    for i in 0..80 {
        let mut tampered = wrapped;
        tampered[i] ^= 0x01;
        assert_eq!(
            SwapPlaintext::decrypt_key(&tampered, &ovk, &epk),
            Err(Error::DecryptionError)
        );
    }
}

#[test]
fn wrong_keys_do_not_decrypt() {
    let swap = enc_sample();
    let esk = enc_scalar(2);
    let ciphertext = swap.encrypt(&esk);
    assert_eq!(
        ciphertext.decrypt(&enc_scalar(4), swap.pk_d, swap.b_d),
        Err(Error::DecryptionError)
    );
    assert_eq!(
        ciphertext.decrypt(&esk, Public(ENC_TWO_B), swap.b_d),
        Err(Error::DecryptionError)
    );
    let other_b_d = Element::decompress(&ENC_THREE_B).unwrap();
    assert_eq!(ciphertext.decrypt(&esk, swap.pk_d, other_b_d), Err(Error::DecryptionError));
}

#[test]
fn wrong_viewing_key_does_not_unwrap() {
    let swap = enc_sample();
    let esk = enc_scalar(2);
    let wrapped = swap.encrypt_key(&esk, &enc_ovk());
    let epk = esk.diversified_public(&swap.b_d);
    assert_eq!(
        SwapPlaintext::decrypt_key(&wrapped, &OutgoingViewingKey([9; 32]), &epk),
        Err(Error::DecryptionError)
    );
    assert_eq!(
        SwapPlaintext::decrypt_key(&wrapped, &enc_ovk(), &Public(ENC_THREE_B)),
        Err(Error::DecryptionError)
    );
}

#[test]
fn cross_swap_key_isolation() {
    let swap_a = enc_sample();
    let swap_b = enc_other_sample();
    let esk_a = enc_scalar(2);
    let esk_b = enc_scalar(11);
    let ciphertext_a = swap_a.encrypt(&esk_a);
    let ciphertext_b = swap_b.encrypt(&esk_b);
    assert_ne!(ciphertext_a, ciphertext_b);
    assert_eq!(
        ciphertext_a.decrypt(&esk_b, swap_a.pk_d, swap_a.b_d),
        Err(Error::DecryptionError)
    );
    assert_eq!(
        ciphertext_b.decrypt(&esk_a, swap_b.pk_d, swap_b.b_d),
        Err(Error::DecryptionError)
    );
    assert_eq!(ciphertext_a.decrypt(&esk_a, swap_a.pk_d, swap_a.b_d), Ok(swap_a));
    assert_eq!(ciphertext_b.decrypt(&esk_b, swap_b.pk_d, swap_b.b_d), Ok(swap_b));
}

#[test]
fn same_swap_under_two_secrets_gives_two_ciphertexts() {
    let swap = enc_sample();
    assert_ne!(swap.encrypt(&enc_scalar(2)), swap.encrypt(&enc_scalar(3)));
}

#[test]
fn opened_bytes_that_are_no_swap_give_the_parse_error() {
    let swap = enc_sample();
    let esk = enc_scalar(2);
    let epk = esk.diversified_public(&swap.b_d);
    let shared = esk.key_agreement_with(&swap.pk_d).unwrap();
    // A sender that seals a layout with another type tag under the right key.
    let mut layout = swap.to_bytes();
    layout[0] = 0x42;
    let mut input = Vec::new();
    input.extend_from_slice(&shared.0);
    input.extend_from_slice(&epk.0);
    let key = blake2b_simd::Params::new().hash_length(32).hash(&input);
    let sealed = chacha_seal(key.as_bytes(), &layout);
    let ciphertext = SwapCiphertext::from_slice(&sealed).unwrap();
    assert_eq!(ciphertext.decrypt(&esk, swap.pk_d, swap.b_d), Err(Error::SwapTypeUnsupported));
    // And one that seals an asset identifier that is not canonical.
    let mut layout = swap.to_bytes();
    for b in &mut layout[1..33] {
        *b = 0xff;
    }
    let sealed = chacha_seal(key.as_bytes(), &layout);
    let ciphertext = SwapCiphertext::from_slice(&sealed).unwrap();
    assert_eq!(
        ciphertext.decrypt(&esk, swap.pk_d, swap.b_d),
        Err(Error::SwapDeserializationError)
    );
}

#[allow(deprecated)]
fn chacha_seal(key: &[u8], msg: &[u8]) -> Vec<u8> {
    let cipher = chacha20poly1305::ChaCha20Poly1305::new(chacha20poly1305::Key::from_slice(key));
    cipher.encrypt(chacha20poly1305::Nonce::from_slice(&[0u8; 12]), msg).unwrap()
}

#[test]
fn unwrapping_checks_the_recovered_keys() {
    let swap = enc_sample();
    let esk = enc_scalar(2);
    let ovk = enc_ovk();
    let epk = esk.diversified_public(&swap.b_d);
    let ock = SwapPlaintext::derive_ock(&ovk, &epk);
    // A payload whose secret spells no scalar.
    let mut payload = Vec::new();
    payload.extend_from_slice(&swap.pk_d.0);
    payload.extend_from_slice(&[0xff; 32]);
    let sealed = chacha_seal(&ock, &payload);
    let wrapped: [u8; 80] = sealed.try_into().unwrap();
    assert_eq!(
        SwapPlaintext::decrypt_key(&wrapped, &ovk, &epk),
        Err(Error::SwapDeserializationError)
    );
    // A payload whose transmission key encodes no group element.
    let mut payload = Vec::new();
    payload.extend_from_slice(&enc_small(1));
    payload.extend_from_slice(&esk.to_bytes());
    let sealed = chacha_seal(&ock, &payload);
    let wrapped: [u8; 80] = sealed.try_into().unwrap();
    assert_eq!(
        SwapPlaintext::decrypt_key(&wrapped, &ovk, &epk),
        Err(Error::SwapDeserializationError)
    );
}

#[test]
fn transmission_key_off_the_group_admits_no_encryption() {
    let mut swap = enc_sample();
    swap.pk_d = Public(enc_small(1));
    let esk = enc_scalar(2);
    assert_eq!(swap.try_encrypt(&esk), None);
    assert_eq!(swap.try_encrypt_payload(&esk, &enc_ovk()), None);
    let ciphertext = enc_sample().encrypt(&esk);
    assert_eq!(ciphertext.try_decrypt(&esk, swap.pk_d, swap.b_d), None);
    // The keys are wrapped all the same, and the unwrapping finds the fault.
    let wrapped = swap.encrypt_key(&esk, &enc_ovk());
    let epk = esk.diversified_public(&swap.b_d);
    assert_eq!(
        SwapPlaintext::decrypt_key(&wrapped, &enc_ovk(), &epk),
        Err(Error::SwapDeserializationError)
    );
}

#[test]
fn try_encrypt_is_encrypt_on_a_valid_key() {
    let swap = enc_sample();
    let esk = enc_scalar(2);
    assert_eq!(swap.try_encrypt(&esk), Some(swap.encrypt(&esk)));
}

#[test]
fn identity_keys_bind_no_secret() {
    // The identity is a group element, and every multiple of it is the identity:
    // with it as basepoint and transmission key, every secret gives one key.
    let mut swap = enc_sample();
    swap.b_d = Element::decompress(&[0u8; 32]).unwrap();
    swap.pk_d = Public([0u8; 32]);
    let ciphertext = swap.encrypt(&enc_scalar(2));
    assert_eq!(ciphertext.decrypt(&enc_scalar(5), swap.pk_d, swap.b_d), Ok(swap));
    assert_eq!(swap.encrypt(&enc_scalar(5)), ciphertext);
}
