//! Laws of the verification pipeline, stated over the spec model and
//! proved once for all inputs.

use vstd::prelude::*;

use crate::base64url::{b64_decode, b64_ok, lemma_b64_decode_ne};
use crate::claims::{spec_json_field, SpecClaims};
use crate::errors::VerifyError;
use crate::pipeline::{
    audience_ok, expiration_ok, issuer_ok, payload_fields_ok, signature_ok, spec_algorithm,
    spec_claims_of, spec_verify, Algorithm, SpecConfig,
};
use crate::segments::{dot_free, lemma_split_unique, splits_into};

verus! {

/// A correctly signed token is accepted: whenever the three segments
/// are well formed, the header names `alg`, the payload parses, the
/// signature segment decodes to the digest that `alg` assigns to the
/// first two raw segments under the configured secret, and the three
/// claim constraints hold at `now`, verification succeeds and returns
/// exactly the payload's claims.
pub proof fn lemma_signed_token_verifies(
    cfg: SpecConfig,
    seg0: Seq<u8>,
    seg1: Seq<u8>,
    seg2: Seq<u8>,
    alg: Algorithm,
    now: u64,
)
    requires
        seg0.len() > 0 && seg1.len() > 0 && seg2.len() > 0,
        dot_free(seg0) && dot_free(seg1) && dot_free(seg2),
        b64_ok(seg0),
        b64_ok(seg1),
        spec_json_field(b64_decode(seg0), "alg"@) is Some,
        spec_algorithm(spec_json_field(b64_decode(seg0), "alg"@)->0) == Ok::<
            Algorithm,
            VerifyError,
        >(alg),
        payload_fields_ok(b64_decode(seg1)),
        signature_ok(alg, cfg.secret, seg0, seg1, seg2),
        expiration_ok(spec_claims_of(b64_decode(seg1)).exp, now),
        issuer_ok(cfg.issuer, spec_claims_of(b64_decode(seg1)).iss),
        audience_ok(cfg.audience, spec_claims_of(b64_decode(seg1)).aud),
    ensures
        spec_verify(cfg, seg0 + seq![46u8] + seg1 + seq![46u8] + seg2, now) == Ok::<
            SpecClaims,
            VerifyError,
        >(spec_claims_of(b64_decode(seg1))),
{
    let t = seg0 + seq![46u8] + seg1 + seq![46u8] + seg2;
    assert(splits_into(t, seg0, seg1, seg2));
    let (a, b, c) = choose|a: Seq<u8>, b: Seq<u8>, c: Seq<u8>| splits_into(t, a, b, c);
    lemma_split_unique(t, a, b, c, seg0, seg1, seg2);
}

/// Tampering with the signature: if a token verifies, then changing
/// any single byte of segment 2 (in particular flipping any single
/// bit) to anything but a dot makes verification fail with
/// `InvalidSignature`.
pub proof fn lemma_signature_tamper(
    cfg: SpecConfig,
    seg0: Seq<u8>,
    seg1: Seq<u8>,
    seg2: Seq<u8>,
    seg2x: Seq<u8>,
    now: u64,
    k: int,
)
    requires
        splits_into(seg0 + seq![46u8] + seg1 + seq![46u8] + seg2, seg0, seg1, seg2),
        spec_verify(cfg, seg0 + seq![46u8] + seg1 + seq![46u8] + seg2, now) is Ok,
        seg2x.len() == seg2.len(),
        0 <= k < seg2.len(),
        seg2x[k] != seg2[k],
        seg2x[k] != 46,
        forall|j: int| 0 <= j < seg2.len() && j != k ==> seg2x[j] == seg2[j],
    ensures
        spec_verify(cfg, seg0 + seq![46u8] + seg1 + seq![46u8] + seg2x, now) == Err::<
            SpecClaims,
            VerifyError,
        >(VerifyError::InvalidSignature),
{
    let t = seg0 + seq![46u8] + seg1 + seq![46u8] + seg2;
    let t2 = seg0 + seq![46u8] + seg1 + seq![46u8] + seg2x;
    let (a, b, c) = choose|a: Seq<u8>, b: Seq<u8>, c: Seq<u8>| splits_into(t, a, b, c);
    lemma_split_unique(t, a, b, c, seg0, seg1, seg2);
    assert(signature_ok(
        spec_algorithm(spec_json_field(b64_decode(seg0), "alg"@)->0)->Ok_0,
        cfg.secret,
        seg0,
        seg1,
        seg2,
    ));
    assert(dot_free(seg2x));
    assert(splits_into(t2, seg0, seg1, seg2x));
    let (a2, b2, c2) = choose|a: Seq<u8>, b: Seq<u8>, c: Seq<u8>| splits_into(t2, a, b, c);
    lemma_split_unique(t2, a2, b2, c2, seg0, seg1, seg2x);
    if b64_ok(seg2x) {
        lemma_b64_decode_ne(seg2, seg2x, k);
    }
}

/// Expiration is the only time-dependent check: a token accepted at
/// some time is accepted, with the same claims, at every time strictly
/// before its `exp` claim (and at every time at all when `exp` is the
/// absent sentinel 0), and is rejected with `TokenExpired` at every
/// time at or after a set `exp`.
pub proof fn lemma_expiration_boundary(
    cfg: SpecConfig,
    t: Seq<u8>,
    cl: SpecClaims,
    now1: u64,
    now2: u64,
)
    requires
        spec_verify(cfg, t, now1) == Ok::<SpecClaims, VerifyError>(cl),
    ensures
        cl.exp != 0 && (now2 as int) >= cl.exp ==> spec_verify(cfg, t, now2) == Err::<
            SpecClaims,
            VerifyError,
        >(VerifyError::TokenExpired),
        cl.exp == 0 || (now2 as int) < cl.exp ==> spec_verify(cfg, t, now2) == Ok::<
            SpecClaims,
            VerifyError,
        >(cl),
{
}

} // verus!
