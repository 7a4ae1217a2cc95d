//! A curve-agnostic private-key library for signing message digests and
//! deriving public keys, together with the fixed-size signature codec of the
//! STARK-friendly curve family.
//!
//! The library validates raw secret bytes generically and per curve, keeps the
//! secret in an owned buffer that is wiped on destruction, dispatches signing
//! and public-key derivation to the selected curve backend, and encodes the
//! resulting signatures as fixed-width byte strings.

use vstd::prelude::*;

pub mod bytes;
pub mod secp256k1;
pub mod starkex;
pub mod traits;
pub mod tw;

verus! {

/// The failures this library reports. Every fallible operation returns one of
/// these immediately; nothing is retried.
#[derive(Clone, Copy, Debug, PartialEq, Eq, Structural)]
pub enum KeyError {
    /// Raw secret bytes fail general validity (wrong length or all-zero) or
    /// fail the selected curve's scalar parsing.
    InvalidSecretKey,
    /// Digest bytes cannot be reshaped into the backend's required digest
    /// representation.
    InvalidSignMessage,
    /// Signature bytes fail the length check or a half fails field-element
    /// parsing.
    InvalidSignature,
    /// The curve backend's signing routine itself reported a failure.
    SigningError,
}

} // verus!
