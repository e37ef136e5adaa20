//! Verification of compact signed tokens: three dot-separated base64url
//! segments (header, payload, signature) checked against a shared HMAC
//! secret and a set of expected claims (issuer, audience, expiration).

pub use claims::{Claims, FieldValue};
pub use errors::{ConfigError, VerifyError};
pub use pipeline::{Algorithm, JWTVerifier};

pub mod base64url;
pub mod claims;
pub mod errors;
pub mod hashing;
pub mod laws;
pub mod pipeline;
pub mod segments;
