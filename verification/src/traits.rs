//! The capability any curve backend's private key must offer to the generic
//! signing path: turn a fixed 32-byte digest into a serialized signature.

use vstd::prelude::*;

use crate::bytes::H256;
use crate::KeyError;

verus! {

/// A curve backend's private key, able to sign a fixed 32-byte digest.
///
/// The 32-byte reshaping of the caller's digest happens before this trait is
/// reached, so a shape failure (`InvalidSignMessage`) here means the backend
/// itself refused the digest's value; any other failure is the backend
/// signer's own and is terminal for the call.
pub trait SigningKeyTrait: Sized {
    /// Which 32-byte digests this backend accepts.
    spec fn digest_ok(&self, digest: Seq<u8>) -> bool;

    /// The serialized signature this key produces for an accepted digest.
    spec fn signature_of(&self, digest: Seq<u8>) -> Seq<u8>;

    /// Whether this backend's signer, deterministic in key and digest,
    /// succeeds on an accepted digest.
    spec fn sign_ok(&self, digest: Seq<u8>) -> bool;

    /// What always holds of this backend's serialized signatures.
    spec fn signature_wf(&self, out: Seq<u8>) -> bool;

    /// Signs the digest, returning the backend's serialized signature bytes.
    /// Succeeds exactly when the backend accepts the digest and its
    /// deterministic signer goes through.
    fn sign(&self, hash: H256) -> (r: Result<Vec<u8>, KeyError>)
        ensures
            r is Ok <==> self.digest_ok(hash@) && self.sign_ok(hash@),
            match r {
                Ok(out) => out@ == self.signature_of(hash@) && self.signature_wf(out@),
                Err(e) => (e == KeyError::InvalidSignMessage && !self.digest_ok(hash@)) || (e
                    == KeyError::SigningError && self.digest_ok(hash@) && !self.sign_ok(hash@)),
            },
    ;
}

} // verus!
