//! The secp256k1 curve backend: scalar validation, deterministic recoverable
//! ECDSA signing and SEC1 public-key encoding through `k256`.

use vstd::prelude::*;

use crate::bytes::{be_u256, H256};
use crate::traits::SigningKeyTrait;
use crate::KeyError;

verus! {

/// The order of the secp256k1 group: the bound on valid secret scalars.
pub open spec fn secp_group_order() -> nat {
    0xfffffffffffffffffffffffffffffffebaaedce6af48a03bbfd25e8cd0364141nat
}

/// Whether a byte string is a canonical secp256k1 secret scalar: exactly 32
/// bytes whose big-endian value is nonzero and below the group order.
pub open spec fn secp_scalar_ok(s: Seq<u8>) -> bool {
    s.len() == 32 && 0 < be_u256(s) && be_u256(s) < secp_group_order()
}

/// The 65-byte signature (r and s, 32 bytes big-endian each, then the
/// one-byte recovery id) that deterministic recoverable ECDSA produces for a
/// given secret scalar and 32-byte digest.
pub uninterp spec fn secp_signature_of(key: Seq<u8>, digest: Seq<u8>) -> Seq<u8>;

/// Whether deterministic recoverable ECDSA succeeds for a given secret
/// scalar and 32-byte digest. The nonce is derived from the two alone, so
/// success, like the signature itself, is a function of them alone.
pub uninterp spec fn secp_sign_ok(key: Seq<u8>, digest: Seq<u8>) -> bool;

/// The SEC1 encoding of the public point derived from a secret scalar:
/// compressed or uncompressed.
pub uninterp spec fn secp_public_key_of(key: Seq<u8>, compressed: bool) -> Seq<u8>;

/// Relies on `k256::ecdsa::SigningKey::from_slice`: parsing a 32-byte slice
/// succeeds exactly when it is a canonical nonzero scalar below the group
/// order.
#[verifier::external_body]
fn secp_parse_ok(bytes: &[u8]) -> (r: bool)
    requires
        bytes@.len() == 32,
    ensures
        r == secp_scalar_ok(bytes@),
{
    k256::ecdsa::SigningKey::from_slice(bytes).is_ok()
}

/// Relies on `k256::ecdsa::SigningKey::sign_prehash_recoverable`: RFC 6979
/// nonce generation makes both the signature and whether signing succeeds at
/// all functions of key and digest alone; the serialized form is r and s in
/// fixed 32-byte big-endian form followed by the one-byte recovery id.
#[verifier::external_body]
fn secp_ecdsa_sign(key: &H256, digest: &H256) -> (r: Option<Vec<u8>>)
    requires
        secp_scalar_ok(key@),
    ensures
        r is Some <==> secp_sign_ok(key@, digest@),
        match r {
            Some(out) => out@ == secp_signature_of(key@, digest@) && out@.len() == 65,
            None => true,
        },
{
    let signing_key = k256::ecdsa::SigningKey::from_slice(key.as_slice()).ok()?;
    let (sig, rec_id) = signing_key.sign_prehash_recoverable(digest.as_slice()).ok()?;
    let mut out = sig.to_bytes().to_vec();
    out.push(rec_id.to_byte());
    Some(out)
}

/// Relies on `k256::ecdsa::VerifyingKey` and its SEC1 point encoding, a
/// function of the secret scalar alone: 33 bytes compressed, 65 bytes
/// uncompressed.
#[verifier::external_body]
fn secp_derive_public(key: &H256, compressed: bool) -> (r: Vec<u8>)
    requires
        secp_scalar_ok(key@),
    ensures
        r@ == secp_public_key_of(key@, compressed),
        r@.len() == (if compressed {
            33int
        } else {
            65int
        }),
{
    let signing_key = k256::ecdsa::SigningKey::from_slice(key.as_slice()).expect(
        "a validated scalar parses",
    );
    let point = signing_key.verifying_key().to_encoded_point(compressed);
    point.as_bytes().to_vec()
}

/// A private key of the secp256k1 backend: a validated secret scalar kept in
/// its canonical 32-byte big-endian form.
pub struct PrivateKey {
    secret: H256,
}

impl View for PrivateKey {
    type V = Seq<u8>;

    closed spec fn view(&self) -> Seq<u8> {
        self.secret@
    }
}

impl PrivateKey {
    #[verifier::type_invariant]
    spec fn type_inv(self) -> bool {
        secp_scalar_ok(self.secret@)
    }

    /// Parses a secret scalar from raw bytes under the backend's acceptance
    /// policy: exactly 32 bytes, nonzero and below the group order.
    pub fn try_from_slice(bytes: &[u8]) -> (r: Result<PrivateKey, KeyError>)
        ensures
            match r {
                Ok(k) => secp_scalar_ok(bytes@) && k@ == bytes@,
                Err(e) => e == KeyError::InvalidSecretKey && !secp_scalar_ok(bytes@),
            },
    {
        if bytes.len() != 32 {
            return Err(KeyError::InvalidSecretKey);
        }
        if !secp_parse_ok(bytes) {
            return Err(KeyError::InvalidSecretKey);
        }
        let secret = H256::from_slice(bytes, 0);
        proof {
            assert(secret@ =~= bytes@);
        }
        Ok(PrivateKey { secret })
    }

    /// Derives the backend's public key in SEC1 form: compressed (33 bytes)
    /// or uncompressed (65 bytes).
    pub fn public(&self, compressed: bool) -> (r: Vec<u8>)
        ensures
            r@ == secp_public_key_of(self@, compressed),
            r@.len() == (if compressed {
                33int
            } else {
                65int
            }),
    {
        proof {
            use_type_invariant(self);
        }
        secp_derive_public(&self.secret, compressed)
    }
}

impl SigningKeyTrait for PrivateKey {
    /// The backend accepts every 32-byte prehashed digest.
    open spec fn digest_ok(&self, digest: Seq<u8>) -> bool {
        true
    }

    open spec fn signature_of(&self, digest: Seq<u8>) -> Seq<u8> {
        secp_signature_of(self@, digest)
    }

    open spec fn sign_ok(&self, digest: Seq<u8>) -> bool {
        secp_sign_ok(self@, digest)
    }

    /// Every signature this backend serializes is 65 bytes: r, s, then the
    /// recovery id.
    open spec fn signature_wf(&self, out: Seq<u8>) -> bool {
        out.len() == 65
    }

    fn sign(&self, hash: H256) -> (r: Result<Vec<u8>, KeyError>) {
        proof {
            use_type_invariant(self);
        }
        match secp_ecdsa_sign(&self.secret, &hash) {
            Some(out) => Ok(out),
            None => Err(KeyError::SigningError),
        }
    }
}

} // verus!
