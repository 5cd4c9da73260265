//! The verdict on the signature of a request.
//!
//! The cryptographic check itself is made outside this crate, against the
//! public key of the actor as it was resolved. Its outcome comes back as
//! a [`SignatureCheck`].

use vstd::prelude::*;

use crate::error::{Error, SignatureFault};

verus! {

/// The outcome of checking the signature of a request against a key.
#[derive(Clone, Copy, Debug, PartialEq, Eq, Structural)]
pub enum SignatureCheck {
    /// The signature was made with the private key that belongs to the key.
    Valid,
    /// The request carries no signature.
    Missing,
    /// The signature was not made with that key.
    Invalid,
    /// The signature is outside its period of validity.
    Expired,
    /// The signature header cannot be read: a field is missing or garbled.
    Unparsable,
    /// A header of the request is no text.
    UnreadableHeader,
    /// The signature does not cover the headers that it has to cover.
    IncompleteHeaders,
}

/// The verdict that follows from the outcome of a check: a signature
/// that is there and in time, but cannot be read or does not match, is
/// invalid.
pub open spec fn signature_verdict(check: SignatureCheck) -> Result<(), Error> {
    match check {
        SignatureCheck::Valid => Ok(()),
        SignatureCheck::Missing => Err(Error::SignatureVerificationError(SignatureFault::Missing)),
        SignatureCheck::Expired => Err(Error::SignatureVerificationError(SignatureFault::Expired)),
        _ => Err(Error::SignatureVerificationError(SignatureFault::Invalid)),
    }
}

/// Succeeds exactly where the check found the signature valid. No
/// partial trust is granted: every other outcome refuses the request.
pub fn verify_signature(check: SignatureCheck) -> (r: Result<(), Error>)
    ensures
        r == signature_verdict(check),
{
    match check {
        SignatureCheck::Valid => Ok(()),
        SignatureCheck::Missing => Err(Error::SignatureVerificationError(SignatureFault::Missing)),
        SignatureCheck::Expired => Err(Error::SignatureVerificationError(SignatureFault::Expired)),
        _ => Err(Error::SignatureVerificationError(SignatureFault::Invalid)),
    }
}

} // verus!
