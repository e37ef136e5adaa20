//! Keyed digests, constant-time comparison, and the clock: the trusted
//! boundary around the cryptographic and system calls.

use vstd::prelude::*;

verus! {

/// The HMAC-SHA-256 digest of `msg` under `key`: a function of the key
/// and the message alone.
pub uninterp spec fn hmac_sha256(key: Seq<u8>, msg: Seq<u8>) -> Seq<u8>;

/// The HMAC-SHA-384 digest of `msg` under `key`.
pub uninterp spec fn hmac_sha384(key: Seq<u8>, msg: Seq<u8>) -> Seq<u8>;

/// The HMAC-SHA-512 digest of `msg` under `key`.
pub uninterp spec fn hmac_sha512(key: Seq<u8>, msg: Seq<u8>) -> Seq<u8>;

/// Relies on the hmac crate's `Hmac<Sha256>` (`new_from_slice`, which
/// accepts keys of any length, then `update` and `finalize`): computes
/// the HMAC-SHA-256 digest of `msg` under `key`.
#[verifier::external_body]
pub(crate) fn hmac_sha256_digest(key: &[u8], msg: &[u8]) -> (r: Vec<u8>)
    ensures
        r@ == hmac_sha256(key@, msg@),
{
    let mut mac = <hmac::Hmac<sha2::Sha256> as hmac::KeyInit>::new_from_slice(key).expect(
        "HMAC accepts keys of any length",
    );
    hmac::Mac::update(&mut mac, msg);
    hmac::Mac::finalize(mac).into_bytes().to_vec()
}

/// Relies on the hmac crate's `Hmac<Sha384>`, as above.
#[verifier::external_body]
pub(crate) fn hmac_sha384_digest(key: &[u8], msg: &[u8]) -> (r: Vec<u8>)
    ensures
        r@ == hmac_sha384(key@, msg@),
{
    let mut mac = <hmac::Hmac<sha2::Sha384> as hmac::KeyInit>::new_from_slice(key).expect(
        "HMAC accepts keys of any length",
    );
    hmac::Mac::update(&mut mac, msg);
    hmac::Mac::finalize(mac).into_bytes().to_vec()
}

/// Relies on the hmac crate's `Hmac<Sha512>`, as above.
#[verifier::external_body]
pub(crate) fn hmac_sha512_digest(key: &[u8], msg: &[u8]) -> (r: Vec<u8>)
    ensures
        r@ == hmac_sha512(key@, msg@),
{
    let mut mac = <hmac::Hmac<sha2::Sha512> as hmac::KeyInit>::new_from_slice(key).expect(
        "HMAC accepts keys of any length",
    );
    hmac::Mac::update(&mut mac, msg);
    hmac::Mac::finalize(mac).into_bytes().to_vec()
}

/// Relies on subtle's `ConstantTimeEq` for byte slices (`ct_eq`): a
/// comparison that is constant-time in the slices' contents and returns
/// true exactly when the two slices are equal.
#[verifier::external_body]
pub(crate) fn ct_bytes_eq(a: &[u8], b: &[u8]) -> (r: bool)
    ensures
        r == (a@ == b@),
{
    bool::from(subtle::ConstantTimeEq::ct_eq(a, b))
}

/// Relies on std::time (`SystemTime::now`, `duration_since`): the
/// current time in whole seconds since the Unix epoch. Nothing is
/// promised of the value; callers state what holds for every outcome.
#[verifier::external_body]
pub(crate) fn now_secs() -> u64 {
    match std::time::SystemTime::now().duration_since(std::time::SystemTime::UNIX_EPOCH) {
        Ok(d) => d.as_secs(),
        Err(_) => 0,
    }
}

} // verus!
