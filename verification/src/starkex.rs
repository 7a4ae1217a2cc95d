//! The STARK-friendly curve backend: scalar validation and deterministic
//! ECDSA signing through `starknet-crypto`, plus the fixed 64-byte signature
//! codec with its round-trip laws.

use vstd::prelude::*;

use crate::bytes::{be_u256, H256};
use crate::traits::SigningKeyTrait;
use crate::KeyError;

verus! {

/// The prime modulus of the STARK curve's base field.
pub open spec fn stark_field_modulus() -> nat {
    0x800000000000011000000000000000000000000000000000000000000000001nat
}

/// Whether a byte string is the canonical 32-byte big-endian form of a STARK
/// field element: exactly 32 bytes whose value lies below the field modulus.
pub open spec fn stark_felt_ok(s: Seq<u8>) -> bool {
    s.len() == 32 && be_u256(s) < stark_field_modulus()
}

/// The 64-byte signature (r followed by s, each 32 bytes big-endian) that the
/// STARK backend's deterministic ECDSA produces for a given secret scalar and
/// digest.
pub uninterp spec fn stark_signature_of(key: Seq<u8>, digest: Seq<u8>) -> Seq<u8>;

/// Whether the STARK backend's deterministic ECDSA succeeds for a given
/// secret scalar and digest. The nonce is derived from the two alone, so
/// success, like the signature itself, is a function of them alone.
pub uninterp spec fn stark_sign_ok(key: Seq<u8>, digest: Seq<u8>) -> bool;

/// The 32-byte x-coordinate of the public point derived from a secret scalar.
pub uninterp spec fn stark_public_key_of(key: Seq<u8>) -> Seq<u8>;

/// Relies on `starknet_ff::FieldElement::from_bytes_be`: parsing succeeds
/// exactly when the 32 bytes, read big-endian, are smaller than the field
/// modulus.
#[verifier::external_body]
fn felt_parse_ok(bytes: &[u8]) -> (r: bool)
    requires
        bytes@.len() == 32,
    ensures
        r == (be_u256(bytes@) < stark_field_modulus()),
{
    let array: [u8; 32] = bytes.try_into().expect("length checked by the caller");
    starknet_ff::FieldElement::from_bytes_be(&array).is_ok()
}

/// Relies on `starknet_crypto::rfc6979_generate_k` and
/// `starknet_crypto::sign`: the nonce is a deterministic function of digest
/// and key, so both the signature and whether signing succeeds at all depend
/// on those two alone; on success both returned scalars are nonzero and
/// below 2^251, hence canonical field elements, and come back here in
/// big-endian form, r first.
#[verifier::external_body]
fn stark_ecdsa_sign(key: &H256, digest: &H256) -> (r: Option<Vec<u8>>)
    requires
        stark_felt_ok(key@),
        stark_felt_ok(digest@),
    ensures
        r is Some <==> stark_sign_ok(key@, digest@),
        match r {
            Some(out) => out@ == stark_signature_of(key@, digest@) && out@.len() == 64
                && stark_felt_ok(out@.subrange(0, 32)) && stark_felt_ok(out@.subrange(32, 64)),
            None => true,
        },
{
    let key_arr: [u8; 32] = key.as_slice().try_into().expect("32 bytes");
    let dig_arr: [u8; 32] = digest.as_slice().try_into().expect("32 bytes");
    let key_fe = starknet_ff::FieldElement::from_bytes_be(&key_arr).ok()?;
    let dig_fe = starknet_ff::FieldElement::from_bytes_be(&dig_arr).ok()?;
    let k = starknet_crypto::rfc6979_generate_k(&dig_fe, &key_fe, None);
    let sig = starknet_crypto::sign(&key_fe, &dig_fe, &k).ok()?;
    let mut out = sig.r.to_bytes_be().to_vec();
    out.extend_from_slice(&sig.s.to_bytes_be());
    Some(out)
}

/// Relies on `starknet_crypto::get_public_key`: the x-coordinate of the
/// public point, a function of the secret scalar alone, returned in its
/// canonical 32-byte big-endian form.
#[verifier::external_body]
fn stark_derive_public(key: &H256) -> (r: Vec<u8>)
    requires
        stark_felt_ok(key@),
    ensures
        r@ == stark_public_key_of(key@),
        r@.len() == 32,
{
    let key_arr: [u8; 32] = key.as_slice().try_into().expect("32 bytes");
    let key_fe = starknet_ff::FieldElement::from_bytes_be(&key_arr).expect("a validated scalar");
    starknet_crypto::get_public_key(&key_fe).to_bytes_be().to_vec()
}

/// A private key of the STARK backend: a validated secret scalar kept in its
/// canonical 32-byte big-endian form.
pub struct PrivateKey {
    secret: H256,
}

impl View for PrivateKey {
    type V = Seq<u8>;

    closed spec fn view(&self) -> Seq<u8> {
        self.secret@
    }
}

impl PrivateKey {
    #[verifier::type_invariant]
    spec fn type_inv(self) -> bool {
        stark_felt_ok(self.secret@)
    }

    /// Parses a secret scalar from raw bytes under the backend's acceptance
    /// policy: exactly 32 bytes below the field modulus.
    pub fn try_from_slice(bytes: &[u8]) -> (r: Result<PrivateKey, KeyError>)
        ensures
            match r {
                Ok(k) => stark_felt_ok(bytes@) && k@ == bytes@,
                Err(e) => e == KeyError::InvalidSecretKey && !stark_felt_ok(bytes@),
            },
    {
        if bytes.len() != 32 {
            return Err(KeyError::InvalidSecretKey);
        }
        if !felt_parse_ok(bytes) {
            return Err(KeyError::InvalidSecretKey);
        }
        let secret = H256::from_slice(bytes, 0);
        proof {
            assert(secret@ =~= bytes@);
        }
        Ok(PrivateKey { secret })
    }

    /// Derives the backend's public key: the 32-byte x-coordinate of the
    /// public point.
    pub fn public(&self) -> (r: Vec<u8>)
        ensures
            r@ == stark_public_key_of(self@),
            r@.len() == 32,
    {
        proof {
            use_type_invariant(self);
        }
        stark_derive_public(&self.secret)
    }
}

impl SigningKeyTrait for PrivateKey {
    /// The backend signs digests that are themselves canonical field
    /// elements.
    open spec fn digest_ok(&self, digest: Seq<u8>) -> bool {
        stark_felt_ok(digest)
    }

    open spec fn signature_of(&self, digest: Seq<u8>) -> Seq<u8> {
        stark_signature_of(self@, digest)
    }

    open spec fn sign_ok(&self, digest: Seq<u8>) -> bool {
        stark_sign_ok(self@, digest)
    }

    /// Every signature this backend serializes is a 64-byte string both of
    /// whose halves are canonical field elements, so `Signature::parse`
    /// accepts it.
    open spec fn signature_wf(&self, out: Seq<u8>) -> bool {
        spec_parse_ok(out)
    }

    fn sign(&self, hash: H256) -> (r: Result<Vec<u8>, KeyError>) {
        proof {
            use_type_invariant(self);
        }
        if !felt_parse_ok(hash.as_slice()) {
            return Err(KeyError::InvalidSignMessage);
        }
        match stark_ecdsa_sign(&self.secret, &hash) {
            Some(out) => Ok(out),
            None => Err(KeyError::SigningError),
        }
    }
}

/// Whether 64 bytes are an accepted serialized signature: both halves must be
/// canonical field elements.
pub open spec fn spec_parse_ok(bytes: Seq<u8>) -> bool {
    bytes.len() == 64 && stark_felt_ok(bytes.subrange(0, 32)) && stark_felt_ok(
        bytes.subrange(32, 64),
    )
}

/// What `parse` recovers from an accepted byte string: its two 32-byte
/// halves, r first.
pub open spec fn spec_parse(bytes: Seq<u8>) -> Option<(Seq<u8>, Seq<u8>)> {
    if spec_parse_ok(bytes) {
        Some((bytes.subrange(0, 32), bytes.subrange(32, 64)))
    } else {
        None
    }
}

/// The fixed-width serialized form of a signature's two scalars: r followed
/// by s, 64 bytes in all.
pub open spec fn spec_serialize(r: Seq<u8>, s: Seq<u8>) -> Seq<u8> {
    r + s
}

/// A STARK-curve ECDSA signature: two scalars r and s, each kept in its
/// canonical 32-byte big-endian form.
#[derive(Debug)]
pub struct Signature {
    r: H256,
    s: H256,
}

impl View for Signature {
    type V = Seq<u8>;

    /// A signature is viewed as its 64-byte serialized form.
    closed spec fn view(&self) -> Seq<u8> {
        self.r@ + self.s@
    }
}

impl Signature {
    /// Both scalars are canonical field elements.
    #[verifier::type_invariant]
    pub closed spec fn wf(self) -> bool {
        stark_felt_ok(self.r@) && stark_felt_ok(self.s@)
    }

    /// The number of bytes of a serialized signature.
    pub fn len() -> (r: usize)
        ensures
            r == 64,
    {
        64
    }

    /// The r-coordinate as a 32-byte array: the serialized form's first half.
    pub fn r(&self) -> (h: H256)
        ensures
            h@ == self@.subrange(0, 32),
    {
        proof {
            use_type_invariant(self);
            assert(self.r@ =~= self@.subrange(0, 32));
        }
        H256::from_slice(self.r.as_slice(), 0)
    }

    /// The s-value as a 32-byte array: the serialized form's second half.
    pub fn s(&self) -> (h: H256)
        ensures
            h@ == self@.subrange(32, 64),
    {
        proof {
            use_type_invariant(self);
            assert(self.s@ =~= self@.subrange(32, 64));
        }
        H256::from_slice(self.s.as_slice(), 0)
    }

    /// Serializes the signature: always exactly 64 bytes, r first, however
    /// many leading zero bytes either scalar has.
    pub fn to_vec(&self) -> (out: Vec<u8>)
        ensures
            out@ == self@,
            out@.len() == 64,
    {
        proof {
            use_type_invariant(self);
        }
        let mut out = self.r.to_vec();
        let mut tail = self.s.to_vec();
        out.append(&mut tail);
        out
    }

    /// Parses a serialized signature. Accepts exactly the 64-byte strings
    /// both of whose halves parse as field elements; everything else is
    /// `InvalidSignature`. No signature-verification check happens here.
    pub fn parse(bytes: &[u8]) -> (r: Result<Signature, KeyError>)
        ensures
            match r {
                Ok(sig) => spec_parse_ok(bytes@) && sig@ == bytes@,
                Err(e) => e == KeyError::InvalidSignature && !spec_parse_ok(bytes@),
            },
    {
        if bytes.len() != 64 {
            return Err(KeyError::InvalidSignature);
        }
        let r_half = H256::from_slice(bytes, 0);
        let s_half = H256::from_slice(bytes, 32);
        if !felt_parse_ok(r_half.as_slice()) {
            return Err(KeyError::InvalidSignature);
        }
        if !felt_parse_ok(s_half.as_slice()) {
            return Err(KeyError::InvalidSignature);
        }
        let sig = Signature { r: r_half, s: s_half };
        proof {
            assert(sig@ =~= bytes@);
        }
        Ok(sig)
    }
}

/// Law: every well-formed signature's 64-byte serialized form is accepted by
/// `parse`, which recovers exactly its two halves.
pub proof fn lemma_serialized_signature_parses(sig: Signature)
    requires
        sig.wf(),
    ensures
        spec_parse(sig@) == Some((sig@.subrange(0, 32), sig@.subrange(32, 64))),
{
    assert(sig@.subrange(0, 32) =~= sig.r@);
    assert(sig@.subrange(32, 64) =~= sig.s@);
}

/// Law: serializing two canonical scalars and parsing the result gives the
/// scalars back unchanged.
pub proof fn lemma_parse_of_serialize(r: Seq<u8>, s: Seq<u8>)
    requires
        stark_felt_ok(r),
        stark_felt_ok(s),
    ensures
        spec_parse(spec_serialize(r, s)) == Some((r, s)),
{
    assert((r + s).subrange(0, 32) =~= r);
    assert((r + s).subrange(32, 64) =~= s);
}

/// Law: serializing what `parse` accepted reproduces the input byte for byte.
pub proof fn lemma_serialize_of_parse(bytes: Seq<u8>)
    ensures
        spec_parse(bytes) matches Some(parts) ==> spec_serialize(parts.0, parts.1) == bytes,
{
    if spec_parse_ok(bytes) {
        assert(bytes.subrange(0, 32) + bytes.subrange(32, 64) =~= bytes);
    }
}

} // verus!
