//! The errors with which an inbound request is refused.

use vstd::prelude::*;
use vstd::string::*;

verus! {

/// Why a URL was not accepted.
#[derive(Clone, Copy, Debug, PartialEq, Eq, Structural)]
pub enum UrlFault {
    /// The text is no absolute URL.
    Malformed,
    /// The URL names no host, or an empty one.
    MissingHost,
    /// The scheme is not among those the instance permits.
    SchemeNotAllowed,
    /// The host is on the instance's block list.
    HostBlocked,
    /// The host is a loopback, private or link-local address.
    PrivateAddress,
    /// The URL belongs to the receiving instance itself.
    LocalOrigin,
}

/// Why the signature of a request was not accepted.
#[derive(Clone, Copy, Debug, PartialEq, Eq, Structural)]
pub enum SignatureFault {
    /// The transport layer has not checked the body against its digest.
    DigestNotVerified,
    /// The request carries no signature.
    Missing,
    /// The signature does not match the key of the claimed actor.
    Invalid,
    /// The signature is outside its period of validity.
    Expired,
}

/// Why a remote object could not be had.
#[derive(Clone, Copy, Debug, PartialEq, Eq, Structural)]
pub enum FetchFault {
    /// The remote server could not be reached or answered with an error.
    Network,
    /// The answer does not declare the federation content type.
    TypeMismatch,
    /// The answer is no JSON document of the expected shape.
    MalformedPayload,
}

/// The kinds of failure of an inbound request. The first one met ends the
/// request.
#[derive(Clone, Copy, Debug, PartialEq, Eq, Structural)]
pub enum Error {
    /// The body does not hold an activity.
    MalformedPayload,
    /// Identifier and actor of an activity lie under different authorities.
    DomainMismatch,
    /// A URL is invalid, not permitted, or of local origin.
    UrlVerificationError(UrlFault),
    /// The request is not authenticated.
    SignatureVerificationError(SignatureFault),
    /// The fetch budget of the request is used up.
    RecursionLimitExceeded,
    /// A remote object could not be fetched or read.
    ResolutionFailure(FetchFault),
    /// The activity kind's own check refused the activity.
    SemanticVerificationFailure,
    /// A reply could not be delivered.
    DeliveryFailure,
}

/// What an error says, in words.
pub open spec fn message_of(e: Error) -> Seq<char> {
    match e {
        Error::MalformedPayload => {
            "The body holds no activity"@
        },
        Error::DomainMismatch => {
            "Domains of identifier and actor do not match"@
        },
        Error::UrlVerificationError(UrlFault::Malformed) => {
            "The text is no URL"@
        },
        Error::UrlVerificationError(UrlFault::MissingHost) => {
            "The URL names no host"@
        },
        Error::UrlVerificationError(UrlFault::SchemeNotAllowed) => {
            "The scheme of the URL is not permitted"@
        },
        Error::UrlVerificationError(UrlFault::HostBlocked) => {
            "The host of the URL is blocked"@
        },
        Error::UrlVerificationError(UrlFault::PrivateAddress) => {
            "The URL leads to a private address"@
        },
        Error::UrlVerificationError(UrlFault::LocalOrigin) => {
            "Activity was sent from local instance"@
        },
        Error::SignatureVerificationError(SignatureFault::DigestNotVerified) => {
            "The body was not checked against its digest"@
        },
        Error::SignatureVerificationError(SignatureFault::Missing) => {
            "The request is not signed"@
        },
        Error::SignatureVerificationError(SignatureFault::Invalid) => {
            "Invalid signature on request"@
        },
        Error::SignatureVerificationError(SignatureFault::Expired) => {
            "The signature of the request has expired"@
        },
        Error::RecursionLimitExceeded => {
            "The request asks for too many remote objects"@
        },
        Error::ResolutionFailure(FetchFault::Network) => {
            "A remote object could not be fetched"@
        },
        Error::ResolutionFailure(FetchFault::TypeMismatch) => {
            "A remote object came with the wrong content type"@
        },
        Error::ResolutionFailure(FetchFault::MalformedPayload) => {
            "A remote object could not be read"@
        },
        Error::SemanticVerificationFailure => {
            "The activity is not in order"@
        },
        Error::DeliveryFailure => {
            "A reply could not be delivered"@
        },
    }
}

impl Error {
    /// What the error says, in words.
    pub fn message(&self) -> (r: String)
        ensures
            r@ == message_of(*self),
    {
        let text = match self {
            Error::MalformedPayload => {
                "The body holds no activity"
            },
            Error::DomainMismatch => {
                "Domains of identifier and actor do not match"
            },
            Error::UrlVerificationError(UrlFault::Malformed) => {
                "The text is no URL"
            },
            Error::UrlVerificationError(UrlFault::MissingHost) => {
                "The URL names no host"
            },
            Error::UrlVerificationError(UrlFault::SchemeNotAllowed) => {
                "The scheme of the URL is not permitted"
            },
            Error::UrlVerificationError(UrlFault::HostBlocked) => {
                "The host of the URL is blocked"
            },
            Error::UrlVerificationError(UrlFault::PrivateAddress) => {
                "The URL leads to a private address"
            },
            Error::UrlVerificationError(UrlFault::LocalOrigin) => {
                "Activity was sent from local instance"
            },
            Error::SignatureVerificationError(SignatureFault::DigestNotVerified) => {
                "The body was not checked against its digest"
            },
            Error::SignatureVerificationError(SignatureFault::Missing) => {
                "The request is not signed"
            },
            Error::SignatureVerificationError(SignatureFault::Invalid) => {
                "Invalid signature on request"
            },
            Error::SignatureVerificationError(SignatureFault::Expired) => {
                "The signature of the request has expired"
            },
            Error::RecursionLimitExceeded => {
                "The request asks for too many remote objects"
            },
            Error::ResolutionFailure(FetchFault::Network) => {
                "A remote object could not be fetched"
            },
            Error::ResolutionFailure(FetchFault::TypeMismatch) => {
                "A remote object came with the wrong content type"
            },
            Error::ResolutionFailure(FetchFault::MalformedPayload) => {
                "A remote object could not be read"
            },
            Error::SemanticVerificationFailure => {
                "The activity is not in order"
            },
            Error::DeliveryFailure => {
                "A reply could not be delivered"
            },
        };
        String::from_str(text)
    }
}

} // verus!
