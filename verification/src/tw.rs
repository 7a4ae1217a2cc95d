//! The curve-agnostic private key: generic and per-curve validation of raw
//! secret bytes, closed-set dispatch of signing and public-key derivation to
//! the curve backends, and guaranteed wiping of the secret on destruction.

use vstd::prelude::*;

use crate::bytes::H256;
use crate::secp256k1;
use crate::starkex;
use crate::traits::SigningKeyTrait;
use crate::KeyError;

verus! {

/// The closed set of supported elliptic curves. Adding one is a compile-time
/// extension: every dispatch site matches on it exhaustively.
#[derive(Clone, Copy, Debug, PartialEq, Eq, Structural)]
pub enum TWCurve {
    Secp256k1,
    Starkex,
}

/// The closed set of public-key kinds a caller can request; each implies both
/// a curve and a point encoding.
#[derive(Clone, Copy, Debug, PartialEq, Eq, Structural)]
pub enum TWPublicKeyType {
    Secp256k1,
    Secp256k1Extended,
    Starkex,
}

/// A derived public key, tagged with the requested kind and carrying the
/// backend's byte encoding for it.
#[derive(Debug, PartialEq, Eq)]
pub enum TWPublicKey {
    /// A compressed SEC1 point, 33 bytes.
    Secp256k1(Vec<u8>),
    /// An uncompressed SEC1 point, 65 bytes.
    Secp256k1Extended(Vec<u8>),
    /// The 32-byte x-coordinate of a STARK curve point.
    Starkex(Vec<u8>),
}

/// General validity of raw secret bytes, with no curve in play: exactly 32
/// bytes, not all zero.
pub open spec fn spec_is_valid_general(bytes: Seq<u8>) -> bool {
    bytes.len() == 32 && exists|i: int| 0 <= i < bytes.len() && bytes[i] != 0
}

/// Whether the selected curve's backend accepts the bytes as a secret scalar.
/// Each backend sets its own policy.
pub open spec fn spec_scalar_ok(curve: TWCurve, bytes: Seq<u8>) -> bool {
    match curve {
        TWCurve::Secp256k1 => secp256k1::secp_scalar_ok(bytes),
        TWCurve::Starkex => starkex::stark_felt_ok(bytes),
    }
}

/// Full validity of raw secret bytes for a curve: general validity and the
/// backend's scalar parse.
pub open spec fn spec_is_valid(bytes: Seq<u8>, curve: TWCurve) -> bool {
    spec_is_valid_general(bytes) && spec_scalar_ok(curve, bytes)
}

/// Which 32-byte digests the selected curve's backend signs.
pub open spec fn spec_digest_ok(curve: TWCurve, digest: Seq<u8>) -> bool {
    match curve {
        TWCurve::Secp256k1 => true,
        TWCurve::Starkex => starkex::stark_felt_ok(digest),
    }
}

/// The serialized signature the selected backend produces for a key and an
/// accepted digest.
pub open spec fn spec_signature_of(curve: TWCurve, key: Seq<u8>, digest: Seq<u8>) -> Seq<u8> {
    match curve {
        TWCurve::Secp256k1 => secp256k1::secp_signature_of(key, digest),
        TWCurve::Starkex => starkex::stark_signature_of(key, digest),
    }
}

/// Whether the selected backend's signer, deterministic in key and digest,
/// succeeds on an accepted digest.
pub open spec fn spec_sign_ok(curve: TWCurve, key: Seq<u8>, digest: Seq<u8>) -> bool {
    match curve {
        TWCurve::Secp256k1 => secp256k1::secp_sign_ok(key, digest),
        TWCurve::Starkex => starkex::stark_sign_ok(key, digest),
    }
}

/// What always holds of the selected backend's serialized signatures: the
/// secp256k1 form is 65 bytes; the STARK form is 64 bytes both of whose
/// halves are canonical field elements, so `starkex::Signature::parse`
/// accepts it.
pub open spec fn spec_signature_wf(curve: TWCurve, out: Seq<u8>) -> bool {
    match curve {
        TWCurve::Secp256k1 => out.len() == 65,
        TWCurve::Starkex => starkex::spec_parse_ok(out),
    }
}

/// The curve a requested public-key kind belongs to.
pub open spec fn spec_curve_of(ty: TWPublicKeyType) -> TWCurve {
    match ty {
        TWPublicKeyType::Secp256k1 => TWCurve::Secp256k1,
        TWPublicKeyType::Secp256k1Extended => TWCurve::Secp256k1,
        TWPublicKeyType::Starkex => TWCurve::Starkex,
    }
}

/// A private key that can sign message digests with different elliptic
/// curves. It owns its secret bytes exclusively, never hands out a mutable
/// alias to them, and wipes them when it is dropped.
pub struct TWPrivateKey {
    bytes: Vec<u8>,
}

impl View for TWPrivateKey {
    type V = Seq<u8>;

    closed spec fn view(&self) -> Seq<u8> {
        self.bytes@
    }
}

/// Relies on `zeroize::Zeroize` for `Vec<u8>`: overwrites every owned byte,
/// including spare capacity, then clears the buffer.
#[verifier::external_body]
fn wipe(bytes: &mut Vec<u8>)
    ensures
        final(bytes)@.len() == 0,
{
    zeroize::Zeroize::zeroize(bytes);
}

/// The shared tail of `sign`: reshapes the caller's digest into the fixed
/// 32-byte form every backend takes, then hands it to the backend key.
fn sign_impl<Key: SigningKeyTrait>(signing_key: Key, hash: &[u8]) -> (r: Result<Vec<u8>, KeyError>)
    ensures
        r is Ok <==> hash@.len() == 32 && signing_key.digest_ok(hash@) && signing_key.sign_ok(
            hash@,
        ),
        match r {
            Ok(out) => out@ == signing_key.signature_of(hash@) && signing_key.signature_wf(out@),
            Err(e) => (e == KeyError::InvalidSignMessage && (hash@.len() != 32
                || !signing_key.digest_ok(hash@))) || (e == KeyError::SigningError && hash@.len()
                == 32 && signing_key.digest_ok(hash@) && !signing_key.sign_ok(hash@)),
        },
{
    if hash.len() != 32 {
        return Err(KeyError::InvalidSignMessage);
    }
    let hash_to_sign = H256::from_slice(hash, 0);
    proof {
        assert(hash_to_sign@ =~= hash@);
    }
    signing_key.sign(hash_to_sign)
}

impl TWPrivateKey {
    #[verifier::type_invariant]
    spec fn type_inv(self) -> bool {
        self.bytes@.len() >= 32
    }

    /// Validates the given secret bytes and takes ownership of them as a
    /// private key. Rejects, with `InvalidSecretKey`, anything that is not
    /// exactly 32 bytes or is all zero; a rejected buffer is wiped before it
    /// is discarded.
    pub fn new(bytes: Vec<u8>) -> (r: Result<TWPrivateKey, KeyError>)
        ensures
            match r {
                Ok(k) => spec_is_valid_general(bytes@) && k@ == bytes@,
                Err(e) => e == KeyError::InvalidSecretKey && !spec_is_valid_general(bytes@),
            },
    {
        let mut owned = bytes;
        if !Self::is_valid_general(owned.as_slice()) {
            wipe(&mut owned);
            return Err(KeyError::InvalidSecretKey);
        }
        Ok(TWPrivateKey { bytes: owned })
    }

    /// The 32-byte canonical key: the first 32 bytes of the owned buffer,
    /// copied out. The buffer is at least that long by construction.
    pub fn key(&self) -> (r: H256)
        ensures
            r@ == self@.subrange(0, 32),
    {
        proof {
            use_type_invariant(self);
        }
        H256::from_slice(self.bytes.as_slice(), 0)
    }

    /// General validity of secret bytes, without a concrete curve: exactly 32
    /// bytes and not all zero.
    pub fn is_valid_general(bytes: &[u8]) -> (r: bool)
        ensures
            r == spec_is_valid_general(bytes@),
    {
        if bytes.len() != 32 {
            return false;
        }
        let mut i: usize = 0;
        while i < 32
            invariant
                i <= 32,
                bytes@.len() == 32,
                forall|j: int| 0 <= j < i ==> bytes@[j] == 0,
            decreases 32 - i,
        {
            if bytes[i] != 0 {
                return true;
            }
            i = i + 1;
        }
        false
    }

    /// Validity of secret bytes for a concrete curve: general validity and a
    /// successful parse by that curve's scalar-field parser.
    pub fn is_valid(bytes: &[u8], curve: TWCurve) -> (r: bool)
        ensures
            r == spec_is_valid(bytes@, curve),
    {
        if !Self::is_valid_general(bytes) {
            return false;
        }
        match curve {
            TWCurve::Secp256k1 => secp256k1::PrivateKey::try_from_slice(bytes).is_ok(),
            TWCurve::Starkex => starkex::PrivateKey::try_from_slice(bytes).is_ok(),
        }
    }

    /// Signs a digest with the given curve's backend. Fails with
    /// `InvalidSecretKey` if the key is not a scalar of that curve, then with
    /// `InvalidSignMessage` if the digest does not fit the backend's required
    /// shape, before any signing work; a failure inside the backend signer
    /// itself is `SigningError`. Succeeds exactly when the key and digest
    /// pass those checks and the backend's deterministic signer goes
    /// through; the result is then the backend's serialized signature, a
    /// function of key and digest alone.
    pub fn sign(&self, hash: &[u8], curve: TWCurve) -> (r: Result<Vec<u8>, KeyError>)
        ensures
            r is Ok <==> spec_scalar_ok(curve, self@.subrange(0, 32)) && hash@.len() == 32
                && spec_digest_ok(curve, hash@) && spec_sign_ok(
                curve,
                self@.subrange(0, 32),
                hash@,
            ),
            match r {
                Ok(out) => out@ == spec_signature_of(curve, self@.subrange(0, 32), hash@)
                    && spec_signature_wf(curve, out@),
                Err(e) => (e == KeyError::InvalidSecretKey && !spec_scalar_ok(
                    curve,
                    self@.subrange(0, 32),
                )) || (e == KeyError::InvalidSignMessage && spec_scalar_ok(
                    curve,
                    self@.subrange(0, 32),
                ) && (hash@.len() != 32 || !spec_digest_ok(curve, hash@))) || (e
                    == KeyError::SigningError && spec_scalar_ok(curve, self@.subrange(0, 32))
                    && hash@.len() == 32 && spec_digest_ok(curve, hash@) && !spec_sign_ok(
                    curve,
                    self@.subrange(0, 32),
                    hash@,
                )),
            },
    {
        match curve {
            TWCurve::Secp256k1 => {
                match self.to_secp256k1_privkey() {
                    Ok(privkey) => sign_impl(privkey, hash),
                    Err(e) => Err(e),
                }
            },
            TWCurve::Starkex => {
                match self.to_starkex_privkey() {
                    Ok(privkey) => sign_impl(privkey, hash),
                    Err(e) => Err(e),
                }
            },
        }
    }

    /// Derives the public key of the requested kind. Fails with
    /// `InvalidSecretKey` exactly when the kind's curve does not accept the
    /// key as a scalar; otherwise the tagged encoding is a function of the
    /// key alone.
    pub fn get_public_key_by_type(&self, ty: TWPublicKeyType) -> (r: Result<TWPublicKey, KeyError>)
        ensures
            r is Ok <==> spec_scalar_ok(spec_curve_of(ty), self@.subrange(0, 32)),
            r matches Err(e) ==> e == KeyError::InvalidSecretKey,
            r matches Ok(pk) ==> match ty {
                TWPublicKeyType::Secp256k1 => pk matches TWPublicKey::Secp256k1(b) && b@
                    == secp256k1::secp_public_key_of(self@.subrange(0, 32), true) && b@.len() == 33,
                TWPublicKeyType::Secp256k1Extended => pk matches TWPublicKey::Secp256k1Extended(b)
                    && b@ == secp256k1::secp_public_key_of(self@.subrange(0, 32), false) && b@.len()
                    == 65,
                TWPublicKeyType::Starkex => pk matches TWPublicKey::Starkex(b) && b@
                    == starkex::stark_public_key_of(self@.subrange(0, 32)) && b@.len() == 32,
            },
    {
        match ty {
            TWPublicKeyType::Secp256k1 => {
                match self.to_secp256k1_privkey() {
                    Ok(privkey) => Ok(TWPublicKey::Secp256k1(privkey.public(true))),
                    Err(e) => Err(e),
                }
            },
            TWPublicKeyType::Secp256k1Extended => {
                match self.to_secp256k1_privkey() {
                    Ok(privkey) => Ok(TWPublicKey::Secp256k1Extended(privkey.public(false))),
                    Err(e) => Err(e),
                }
            },
            TWPublicKeyType::Starkex => {
                match self.to_starkex_privkey() {
                    Ok(privkey) => Ok(TWPublicKey::Starkex(privkey.public())),
                    Err(e) => Err(e),
                }
            },
        }
    }

    /// Reconstructs the secp256k1 backend's key from the 32-byte window; a
    /// fresh ephemeral value each call, never cached.
    fn to_secp256k1_privkey(&self) -> (r: Result<secp256k1::PrivateKey, KeyError>)
        ensures
            match r {
                Ok(k) => secp256k1::secp_scalar_ok(self@.subrange(0, 32)) && k@ == self@.subrange(
                    0,
                    32,
                ),
                Err(e) => e == KeyError::InvalidSecretKey && !secp256k1::secp_scalar_ok(
                    self@.subrange(0, 32),
                ),
            },
    {
        let key = self.key();
        secp256k1::PrivateKey::try_from_slice(key.as_slice())
    }

    /// Reconstructs the STARK backend's key from the 32-byte window; a fresh
    /// ephemeral value each call, never cached.
    fn to_starkex_privkey(&self) -> (r: Result<starkex::PrivateKey, KeyError>)
        ensures
            match r {
                Ok(k) => starkex::stark_felt_ok(self@.subrange(0, 32)) && k@ == self@.subrange(
                    0,
                    32,
                ),
                Err(e) => e == KeyError::InvalidSecretKey && !starkex::stark_felt_ok(
                    self@.subrange(0, 32),
                ),
            },
    {
        let key = self.key();
        starkex::PrivateKey::try_from_slice(key.as_slice())
    }
}

impl Drop for TWPrivateKey {
    /// Relies on `zeroize::Zeroize` for `Vec<u8>`: overwrites every owned
    /// byte, including spare capacity, before the buffer is freed. This runs
    /// on every path that destroys the key, normal or early.
    #[verifier::external_body]
    fn drop(&mut self)
        opens_invariants none
        no_unwind
    {
        zeroize::Zeroize::zeroize(&mut self.bytes);
    }
}

/// Law: a 32-byte buffer that is not all zero and that the curve's backend
/// accepts as a scalar is valid, both generally and for that curve.
pub proof fn lemma_valid_scalar_is_valid(bytes: Seq<u8>, curve: TWCurve)
    requires
        bytes.len() == 32,
        exists|i: int| 0 <= i < bytes.len() && bytes[i] != 0,
        spec_scalar_ok(curve, bytes),
    ensures
        spec_is_valid(bytes, curve),
        spec_is_valid_general(bytes),
{
}

/// Law: an all-zero buffer is never a valid secret, generally or for any
/// curve, whatever its length.
pub proof fn lemma_zero_buffer_invalid(bytes: Seq<u8>, curve: TWCurve)
    requires
        forall|i: int| 0 <= i < bytes.len() ==> bytes[i] == 0,
    ensures
        !spec_is_valid_general(bytes),
        !spec_is_valid(bytes, curve),
{
}

/// Law: a buffer whose length is not 32 is never a valid secret, generally or
/// for any curve.
pub proof fn lemma_wrong_length_invalid(bytes: Seq<u8>, curve: TWCurve)
    requires
        bytes.len() != 32,
    ensures
        !spec_is_valid_general(bytes),
        !spec_is_valid(bytes, curve),
{
}

} // verus!
