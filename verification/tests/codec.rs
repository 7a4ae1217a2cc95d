use tw_keypair::starkex::Signature;
use tw_keypair::tw::{TWCurve, TWPrivateKey};
use tw_keypair::KeyError;

fn small_signature_bytes() -> Vec<u8> {
    // r = 3, s = 5: both canonical field elements, with leading zero bytes.
    let mut bytes = vec![0u8; 64];
    bytes[31] = 3;
    bytes[63] = 5;
    bytes
}

#[test]
fn len_is_64() {
    assert_eq!(Signature::len(), 64);
}

#[test]
fn parse_accepts_64_canonical_bytes() {
    let bytes = small_signature_bytes();
    let sig = Signature::parse(&bytes).unwrap();
    let mut expected_r = vec![0u8; 32];
    expected_r[31] = 3;
    let mut expected_s = vec![0u8; 32];
    expected_s[31] = 5;
    assert_eq!(sig.r().to_vec(), expected_r);
    assert_eq!(sig.s().to_vec(), expected_s);
}

#[test]
fn parse_rejects_wrong_lengths() {
    assert_eq!(
        Signature::parse(&[0u8; 63]).unwrap_err(),
        KeyError::InvalidSignature
    );
    assert_eq!(
        Signature::parse(&[0u8; 65]).unwrap_err(),
        KeyError::InvalidSignature
    );
    assert_eq!(Signature::parse(&[]).unwrap_err(), KeyError::InvalidSignature);
}

#[test]
fn parse_rejects_halves_above_the_field_modulus() {
    // Both halves too large.
    assert_eq!(
        Signature::parse(&[0xffu8; 64]).unwrap_err(),
        KeyError::InvalidSignature
    );
    // Only the r half too large.
    let mut bad_r = small_signature_bytes();
    for byte in bad_r.iter_mut().take(32) {
        *byte = 0xff;
    }
    assert_eq!(Signature::parse(&bad_r).unwrap_err(), KeyError::InvalidSignature);
    // Only the s half too large.
    let mut bad_s = small_signature_bytes();
    for byte in bad_s.iter_mut().skip(32) {
        *byte = 0xff;
    }
    assert_eq!(Signature::parse(&bad_s).unwrap_err(), KeyError::InvalidSignature);
}

#[test]
fn serialize_of_parse_reproduces_the_input() {
    let bytes = small_signature_bytes();
    let sig = Signature::parse(&bytes).unwrap();
    assert_eq!(sig.to_vec(), bytes);
}

#[test]
fn parse_of_serialize_reproduces_the_signature() {
    let bytes = small_signature_bytes();
    let sig = Signature::parse(&bytes).unwrap();
    let reparsed = Signature::parse(&sig.to_vec()).unwrap();
    assert_eq!(reparsed.r().to_vec(), sig.r().to_vec());
    assert_eq!(reparsed.s().to_vec(), sig.s().to_vec());
}

#[test]
fn signed_starkex_bytes_round_trip_through_the_codec() {
    let mut secret = vec![0u8; 31];
    secret.push(1);
    let key = TWPrivateKey::new(secret).unwrap();
    let digest = vec![2u8; 32];
    let signed = key.sign(&digest, TWCurve::Starkex).unwrap();
    assert_eq!(signed.len(), 64);
    let sig = Signature::parse(&signed).unwrap();
    assert_eq!(sig.to_vec(), signed);
    // The accessors return exactly the two halves of the serialized form.
    assert_eq!(sig.r().to_vec(), signed[..32].to_vec());
    assert_eq!(sig.s().to_vec(), signed[32..].to_vec());
}

#[test]
fn fixed_secret_and_digest_give_a_reconstructible_starkex_signature() {
    // A fixed known nonzero secret and a fixed digest.
    let secret = vec![
        0x01, 0x02, 0x03, 0x04, 0x05, 0x06, 0x07, 0x08, 0x09, 0x0a, 0x0b, 0x0c, 0x0d, 0x0e, 0x0f,
        0x10, 0x11, 0x12, 0x13, 0x14, 0x15, 0x16, 0x17, 0x18, 0x19, 0x1a, 0x1b, 0x1c, 0x1d, 0x1e,
        0x1f, 0x20,
    ];
    let digest = vec![
        0x06, 0x1e, 0xc9, 0x82, 0xf9, 0x00, 0xdb, 0xd9, 0xca, 0x3a, 0x1e, 0xcc, 0x3e, 0x03, 0xf7,
        0x1d, 0x42, 0x3a, 0x2a, 0x2b, 0x1f, 0xd6, 0x41, 0x0f, 0x55, 0x89, 0x4a, 0x04, 0x47, 0xbb,
        0x0b, 0x42,
    ];
    assert!(TWPrivateKey::is_valid(&secret, TWCurve::Starkex));
    let key = TWPrivateKey::new(secret).unwrap();
    let signed = key.sign(&digest, TWCurve::Starkex).unwrap();
    assert_eq!(signed.len(), 64);
    // Signing is deterministic for a fixed secret and digest.
    assert_eq!(signed, key.sign(&digest, TWCurve::Starkex).unwrap());
    // Split the 64 bytes: r and s are independently reconstructible through
    // the accessors and equal the first and second halves.
    let sig = Signature::parse(&signed).unwrap();
    assert_eq!(sig.r().to_vec(), signed[..32].to_vec());
    assert_eq!(sig.s().to_vec(), signed[32..].to_vec());
}
