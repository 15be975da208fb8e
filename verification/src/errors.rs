//! Error taxonomy for the authentication core.
//!
//! Startup failures (`KeyFetchError`, `KeyParseError`) are fatal: the process
//! must not serve traffic with an empty or partial key set.  Per-request
//! failures in header extraction, token verification or key lookup surface
//! uniformly as an unauthorized rejection; profile-store failures other than
//! a duplicate-key race surface as an internal error.

use vstd::prelude::*;

verus! {

/// Everything that can go wrong on the authentication path.
#[derive(Debug, Clone, Copy, PartialEq, Eq, Structural)]
pub enum AuthError {
    /// The publishable identifier has fewer than three delimited segments.
    InvalidIdentifierFormat,
    /// The payload segment of the publishable identifier is not valid
    /// base64, or its decoded form is not valid UTF-8.
    EncodingError,
    /// The key-discovery endpoint could not be reached.
    KeyFetchError,
    /// The key-discovery response was malformed or held invalid key
    /// components.
    KeyParseError,
    /// The token names a key identifier that the ring does not hold.
    UnknownKeyId,
    /// The token is not a well-formed compact token.
    MalformedToken,
    /// The token header carries no key identifier.
    MissingKeyId,
    /// The signature does not verify under the named key with RSA-SHA256,
    /// or the header claims some other algorithm.
    SignatureInvalid,
    /// The token is past its expiry.
    TokenExpired,
    /// The verified payload does not have the expected claim shape.
    ClaimDecodeError,
    /// The profile store failed for a reason other than a duplicate key.
    ProfileStoreError,
    /// A create lost the uniqueness race; always retried, never surfaced.
    DuplicateIdentity,
}

/// How a request is turned away.
#[derive(Debug, Clone, Copy, PartialEq, Eq, Structural)]
pub enum Rejection {
    /// Header extraction, token verification or key lookup failed.
    Unauthorized,
    /// The profile store failed.
    InternalError,
}

} // verus!
