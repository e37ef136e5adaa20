//! Error kinds reported by token verification and by verifier construction.

use vstd::prelude::*;

verus! {

/// Failure reported by `JWTVerifier::new`: the shared secret was empty.
#[derive(Clone, Copy, Debug, PartialEq, Eq, Structural)]
pub enum ConfigError {
    EmptySecret,
}

/// The reasons a token is rejected. Every stage fails fast with the first
/// violated condition; the caller sees exactly one of these kinds.
#[derive(Clone, Copy, Debug, PartialEq, Eq, Structural)]
pub enum VerifyError {
    /// Wrong segment count, empty segment, bad base64 or bad document
    /// syntax in header or payload.
    MalformedToken,
    /// The header's `alg` field is missing or not a supported name.
    UnsupportedAlgorithm,
    /// The recomputed digest does not match segment 2.
    InvalidSignature,
    /// The `exp` claim is set and not in the future.
    TokenExpired,
    /// The `iss` claim is present and differs from the expected issuer.
    InvalidIssuer,
    /// The `aud` claim is checked and does not cover the expected audience.
    InvalidAudience,
}

impl ConfigError {
    /// A short description of the failure, for logging.
    pub fn message(&self) -> (r: &'static str)
        ensures
            r@ == "secret cannot be empty"@,
    {
        "secret cannot be empty"
    }
}

impl VerifyError {
    /// A short description of the rejection reason, for logging.
    pub fn message(&self) -> (r: &'static str)
        ensures
            self is MalformedToken ==> r@ == "malformed token"@,
            self is UnsupportedAlgorithm ==> r@ == "unsupported algorithm"@,
            self is InvalidSignature ==> r@ == "signature verification failed"@,
            self is TokenExpired ==> r@ == "token expired"@,
            self is InvalidIssuer ==> r@ == "token issuer invalid"@,
            self is InvalidAudience ==> r@ == "token audience invalid"@,
    {
        match self {
            VerifyError::MalformedToken => "malformed token",
            VerifyError::UnsupportedAlgorithm => "unsupported algorithm",
            VerifyError::InvalidSignature => "signature verification failed",
            VerifyError::TokenExpired => "token expired",
            VerifyError::InvalidIssuer => "token issuer invalid",
            VerifyError::InvalidAudience => "token audience invalid",
        }
    }
}

} // verus!
