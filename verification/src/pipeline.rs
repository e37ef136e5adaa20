//! The verifier: immutable configuration, the fixed algorithm table,
//! and the four-stage verification pipeline.

use vstd::prelude::*;
use vstd::string::{StringExecFns, StringSliceAdditionalSpecFns};

use crate::base64url::{b64_decode, b64_ok, b64url_decode};
use crate::claims::{
    json_field, spec_exp, spec_iss, spec_json_field, Claims, FieldValue, SpecClaims, SpecField,
};
use crate::errors::{ConfigError, VerifyError};
use crate::hashing::{
    ct_bytes_eq, hmac_sha256, hmac_sha256_digest, hmac_sha384, hmac_sha384_digest, hmac_sha512,
    hmac_sha512_digest, now_secs,
};
use crate::segments::{lemma_split_unique, split_segments, splits_into};

verus! {

/// The supported keyed-hash algorithms. The algorithm table is fixed at
/// construction: `"HS256"`, `"HS384"` and `"HS512"` map here and no
/// other name is accepted.
#[derive(Clone, Copy, Debug, PartialEq, Eq, Structural)]
pub enum Algorithm {
    HS256,
    HS384,
    HS512,
}

/// The digest `alg` assigns to `msg` under `key`.
pub open spec fn spec_hmac(alg: Algorithm, key: Seq<u8>, msg: Seq<u8>) -> Seq<u8> {
    match alg {
        Algorithm::HS256 => hmac_sha256(key, msg),
        Algorithm::HS384 => hmac_sha384(key, msg),
        Algorithm::HS512 => hmac_sha512(key, msg),
    }
}

/// Spec-level view of the configuration.
pub struct SpecConfig {
    pub secret: Seq<u8>,
    pub audience: Option<Seq<char>>,
    pub issuer: Option<Seq<char>>,
}

/// Immutable verifier configuration: the shared secret and the expected
/// audience and issuer (absent means unconstrained).
pub struct JWTVerifier {
    secret: Vec<u8>,
    audience: Option<String>,
    issuer: Option<String>,
}

/// The view of an optional text value.
pub open spec fn opt_text(o: Option<String>) -> Option<Seq<char>> {
    match o {
        Some(s) => Some(s@),
        None => None,
    }
}

impl View for JWTVerifier {
    type V = SpecConfig;

    closed spec fn view(&self) -> SpecConfig {
        SpecConfig {
            secret: self.secret@,
            audience: opt_text(self.audience),
            issuer: opt_text(self.issuer),
        }
    }
}

/// The algorithm the header's `alg` field names, per the fixed table.
pub open spec fn spec_algorithm(f: SpecField) -> Result<Algorithm, VerifyError> {
    match f {
        SpecField::Text(s) => if s == "HS256"@ {
            Ok(Algorithm::HS256)
        } else if s == "HS384"@ {
            Ok(Algorithm::HS384)
        } else if s == "HS512"@ {
            Ok(Algorithm::HS512)
        } else {
            Err(VerifyError::UnsupportedAlgorithm)
        },
        _ => Err(VerifyError::UnsupportedAlgorithm),
    }
}

/// Expiration passes when `exp` is the absent sentinel 0 or the current
/// time is strictly before it (equality counts as expired).
pub open spec fn expiration_ok(exp: int, now: u64) -> bool {
    exp == 0 || (now as int) < exp
}

/// Issuer passes unless both an issuer is expected and the token
/// carries one and the two differ.
pub open spec fn issuer_ok(expected: Option<Seq<char>>, tok: Option<Seq<char>>) -> bool {
    match (expected, tok) {
        (Some(e), Some(t)) => e == t,
        _ => true,
    }
}

/// Audience passes when none is expected or the `aud` field is absent;
/// a text field must equal the expected audience, a sequence field must
/// contain it somewhere; any other shape fails.
pub open spec fn audience_ok(expected: Option<Seq<char>>, aud: SpecField) -> bool {
    match expected {
        None => true,
        Some(e) => match aud {
            SpecField::Absent => true,
            SpecField::Text(s) => s == e,
            SpecField::List(items) => exists|k: int| 0 <= k < items.len() && items[k] == Some(e),
            _ => false,
        },
    }
}

/// The signature check: segment 2 decodes (as canonical base64url) to
/// exactly the digest of the two raw encoded segments joined by a dot.
pub open spec fn signature_ok(
    alg: Algorithm,
    secret: Seq<u8>,
    seg0: Seq<u8>,
    seg1: Seq<u8>,
    seg2: Seq<u8>,
) -> bool {
    b64_ok(seg2) && b64_decode(seg2) == spec_hmac(alg, secret, seg0 + seq![46u8] + seg1)
}

/// The claims a payload document stands for.
pub open spec fn spec_claims_of(pd: Seq<u8>) -> SpecClaims {
    SpecClaims {
        exp: spec_exp(spec_json_field(pd, "exp"@)->0),
        iss: spec_iss(spec_json_field(pd, "iss"@)->0),
        aud: spec_json_field(pd, "aud"@)->0,
    }
}

/// The payload's three recognized fields all classify, which holds
/// exactly when the payload is a valid document.
pub open spec fn payload_fields_ok(pd: Seq<u8>) -> bool {
    &&& spec_json_field(pd, "exp"@) is Some
    &&& spec_json_field(pd, "iss"@) is Some
    &&& spec_json_field(pd, "aud"@) is Some
}

/// The verification outcome for token bytes `t` at time `now`, stage by
/// stage: segmentation, header decoding, algorithm lookup, payload
/// decoding, signature check, then the three claim checks; the first
/// violated condition decides the error.
pub open spec fn spec_verify(cfg: SpecConfig, t: Seq<u8>, now: u64) -> Result<
    SpecClaims,
    VerifyError,
> {
    if !(exists|a: Seq<u8>, b: Seq<u8>, c: Seq<u8>| splits_into(t, a, b, c)) {
        Err(VerifyError::MalformedToken)
    } else {
        let (a, b, c) = choose|a: Seq<u8>, b: Seq<u8>, c: Seq<u8>| splits_into(t, a, b, c);
        if !b64_ok(a) {
            Err(VerifyError::MalformedToken)
        } else if spec_json_field(b64_decode(a), "alg"@) is None {
            Err(VerifyError::MalformedToken)
        } else {
            match spec_algorithm(spec_json_field(b64_decode(a), "alg"@)->0) {
                Err(e) => Err(e),
                Ok(alg) => if !b64_ok(b) {
                    Err(VerifyError::MalformedToken)
                } else if !payload_fields_ok(b64_decode(b)) {
                    Err(VerifyError::MalformedToken)
                } else {
                    let cl = spec_claims_of(b64_decode(b));
                    if !signature_ok(alg, cfg.secret, a, b, c) {
                        Err(VerifyError::InvalidSignature)
                    } else if !expiration_ok(cl.exp, now) {
                        Err(VerifyError::TokenExpired)
                    } else if !issuer_ok(cfg.issuer, cl.iss) {
                        Err(VerifyError::InvalidIssuer)
                    } else if !audience_ok(cfg.audience, cl.aud) {
                        Err(VerifyError::InvalidAudience)
                    } else {
                        Ok(cl)
                    }
                },
            }
        }
    }
}

/// An executable outcome agrees with a spec outcome.
pub open spec fn matches_outcome(
    spec_r: Result<SpecClaims, VerifyError>,
    r: Result<Claims, VerifyError>,
) -> bool {
    match (spec_r, r) {
        (Ok(sc), Ok(c)) => c@ == sc,
        (Err(se), Err(e)) => se == e,
        _ => false,
    }
}

impl JWTVerifier {
    /// The configuration invariant: the secret is never empty.
    pub open spec fn wf(&self) -> bool {
        self@.secret.len() > 0
    }

    /// Builds a verifier. Fails exactly when the secret is empty; on
    /// success the configuration holds the given values unchanged.
    pub fn new(secret: Vec<u8>, audience: Option<String>, issuer: Option<String>) -> (r: Result<
        JWTVerifier,
        ConfigError,
    >)
        ensures
            r is Ok <==> secret@.len() > 0,
            r matches Ok(v) ==> v@ == (SpecConfig {
                secret: secret@,
                audience: opt_text(audience),
                issuer: opt_text(issuer),
            }) && v.wf(),
            r matches Err(e) ==> e == ConfigError::EmptySecret,
    {
        if secret.len() == 0 {
            Err(ConfigError::EmptySecret)
        } else {
            Ok(JWTVerifier { secret, audience, issuer })
        }
    }

    /// Resolves the header's `alg` field against the fixed table.
    pub fn get_algorithm(&self, alg_field: &FieldValue) -> (r: Result<Algorithm, VerifyError>)
        ensures
            r == spec_algorithm(alg_field@),
    {
        match alg_field {
            FieldValue::Text(s) => {
                if s.eq(&String::from_str("HS256")) {
                    Ok(Algorithm::HS256)
                } else if s.eq(&String::from_str("HS384")) {
                    Ok(Algorithm::HS384)
                } else if s.eq(&String::from_str("HS512")) {
                    Ok(Algorithm::HS512)
                } else {
                    Err(VerifyError::UnsupportedAlgorithm)
                }
            },
            _ => Err(VerifyError::UnsupportedAlgorithm),
        }
    }

    /// Recomputes the keyed digest over the two raw encoded segments
    /// and compares it, in constant time, against decoded segment 2.
    pub fn verify_signature(
        &self,
        seg0: &[u8],
        seg1: &[u8],
        seg2: &[u8],
        alg: Algorithm,
    ) -> (r: Result<(), VerifyError>)
        ensures
            r is Ok <==> signature_ok(alg, self@.secret, seg0@, seg1@, seg2@),
            r matches Err(e) ==> e == VerifyError::InvalidSignature,
    {
        let mut msg: Vec<u8> = Vec::new();
        msg.extend_from_slice(seg0);
        msg.push(46);
        msg.extend_from_slice(seg1);
        proof {
            assert(msg@ =~= seg0@ + seq![46u8] + seg1@);
        }
        let digest = match alg {
            Algorithm::HS256 => hmac_sha256_digest(self.secret.as_slice(), msg.as_slice()),
            Algorithm::HS384 => hmac_sha384_digest(self.secret.as_slice(), msg.as_slice()),
            Algorithm::HS512 => hmac_sha512_digest(self.secret.as_slice(), msg.as_slice()),
        };
        match b64url_decode(seg2) {
            None => Err(VerifyError::InvalidSignature),
            Some(sig) => {
                if ct_bytes_eq(sig.as_slice(), digest.as_slice()) {
                    Ok(())
                } else {
                    Err(VerifyError::InvalidSignature)
                }
            },
        }
    }

    /// Rejects a token whose `exp` claim is set and not strictly in the
    /// future of `now` (equality counts as expired).
    pub fn verify_expiration(&self, claims: &Claims, now: u64) -> (r: Result<(), VerifyError>)
        ensures
            r is Ok <==> expiration_ok(claims@.exp, now),
            r matches Err(e) ==> e == VerifyError::TokenExpired,
    {
        let exp = claims.exp;
        if exp == 0 {
            Ok(())
        } else if exp < 0 {
            Err(VerifyError::TokenExpired)
        } else if now >= exp as u64 {
            Err(VerifyError::TokenExpired)
        } else {
            Ok(())
        }
    }

    /// Rejects a token that carries an issuer differing from the
    /// expected one; passes when either side is absent.
    pub fn verify_issuer(&self, claims: &Claims) -> (r: Result<(), VerifyError>)
        ensures
            r is Ok <==> issuer_ok(self@.issuer, claims@.iss),
            r matches Err(e) ==> e == VerifyError::InvalidIssuer,
    {
        match (&self.issuer, &claims.iss) {
            (Some(expected), Some(tok)) => {
                if expected.eq(tok) {
                    Ok(())
                } else {
                    Err(VerifyError::InvalidIssuer)
                }
            },
            _ => Ok(()),
        }
    }

    /// Checks the `aud` claim against the expected audience: absent
    /// passes, a text value must equal it, a sequence must contain it,
    /// any other shape fails.
    pub fn verify_audience(&self, claims: &Claims) -> (r: Result<(), VerifyError>)
        ensures
            r is Ok <==> audience_ok(self@.audience, claims@.aud),
            r matches Err(e) ==> e == VerifyError::InvalidAudience,
    {
        let expected = match &self.audience {
            None => {
                return Ok(());
            },
            Some(e) => e,
        };
        match &claims.aud {
            FieldValue::Absent => Ok(()),
            FieldValue::Text(s) => {
                if s.eq(expected) {
                    Ok(())
                } else {
                    Err(VerifyError::InvalidAudience)
                }
            },
            FieldValue::List(items) => {
                let ghost gitems = items@.map(
                    |i: int, e: Option<String>|
                        match e {
                            Some(s) => Some(s@),
                            None => None,
                        },
                );
                let n = items.len();
                let mut i: usize = 0;
                while i < n
                    invariant
                        n == items@.len(),
                        i <= n,
                        gitems == items@.map(
                            |i: int, e: Option<String>|
                                match e {
                                    Some(s) => Some(s@),
                                    None => None,
                                },
                        ),
                        claims@.aud == SpecField::List(gitems),
                        self@.audience == Some(expected@),
                        forall|k: int| 0 <= k < i ==> gitems[k] != Some(expected@),
                    decreases n - i,
                {
                    match &items[i] {
                        Some(s) => {
                            if s.eq(expected) {
                                proof {
                                    assert(gitems[i as int] == Some(expected@));
                                }
                                return Ok(());
                            }
                        },
                        None => {},
                    }
                    i = i + 1;
                }
                Err(VerifyError::InvalidAudience)
            },
            FieldValue::Int(_) => Err(VerifyError::InvalidAudience),
            FieldValue::Other => Err(VerifyError::InvalidAudience),
        }
    }

    /// Runs the whole pipeline on the token's bytes at time `now`.
    pub fn verify_bytes(&self, token: &[u8], now: u64) -> (r: Result<Claims, VerifyError>)
        ensures
            matches_outcome(spec_verify(self@, token@, now), r),
    {
        let (seg0, seg1, seg2) = match split_segments(token) {
            None => {
                return Err(VerifyError::MalformedToken);
            },
            Some(p) => p,
        };
        proof {
            let (sa, sb, sc) = choose|a: Seq<u8>, b: Seq<u8>, c: Seq<u8>|
                splits_into(token@, a, b, c);
            lemma_split_unique(token@, sa, sb, sc, seg0@, seg1@, seg2@);
            assert(sa == seg0@ && sb == seg1@ && sc == seg2@);
        }
        let hd = match b64url_decode(seg0.as_slice()) {
            None => {
                return Err(VerifyError::MalformedToken);
            },
            Some(v) => v,
        };
        let alg_field = match json_field(hd.as_slice(), "alg") {
            None => {
                return Err(VerifyError::MalformedToken);
            },
            Some(f) => f,
        };
        let alg = match self.get_algorithm(&alg_field) {
            Err(e) => {
                return Err(e);
            },
            Ok(a) => a,
        };
        let pd = match b64url_decode(seg1.as_slice()) {
            None => {
                return Err(VerifyError::MalformedToken);
            },
            Some(v) => v,
        };
        let exp_field = match json_field(pd.as_slice(), "exp") {
            None => {
                return Err(VerifyError::MalformedToken);
            },
            Some(f) => f,
        };
        let iss_field = match json_field(pd.as_slice(), "iss") {
            None => {
                return Err(VerifyError::MalformedToken);
            },
            Some(f) => f,
        };
        let aud_field = match json_field(pd.as_slice(), "aud") {
            None => {
                return Err(VerifyError::MalformedToken);
            },
            Some(f) => f,
        };
        let exp: i64 = match &exp_field {
            FieldValue::Int(n) => *n,
            _ => 0,
        };
        let iss: Option<String> = match iss_field {
            FieldValue::Text(s) => Some(s),
            _ => None,
        };
        let claims = Claims { exp, iss, aud: aud_field };
        proof {
            assert(claims@ == spec_claims_of(pd@));
        }
        match self.verify_signature(seg0.as_slice(), seg1.as_slice(), seg2.as_slice(), alg) {
            Err(e) => {
                return Err(e);
            },
            Ok(_) => {},
        }
        match self.verify_expiration(&claims, now) {
            Err(e) => {
                return Err(e);
            },
            Ok(_) => {},
        }
        match self.verify_issuer(&claims) {
            Err(e) => {
                return Err(e);
            },
            Ok(_) => {},
        }
        match self.verify_audience(&claims) {
            Err(e) => {
                return Err(e);
            },
            Ok(_) => {},
        }
        Ok(claims)
    }

    /// Verifies a token at an explicit time (seconds since the epoch).
    pub fn verify_at(&self, token: &str, now: u64) -> (r: Result<Claims, VerifyError>)
        ensures
            matches_outcome(spec_verify(self@, token.spec_bytes(), now), r),
    {
        self.verify_bytes(token.as_bytes(), now)
    }

    /// Verifies a token at the current time. The clock is read once;
    /// the outcome is the one the pipeline gives for that reading.
    pub fn verify(&self, token: &str) -> (r: Result<Claims, VerifyError>)
        ensures
            exists|now: u64| matches_outcome(spec_verify(self@, token.spec_bytes(), now), r),
    {
        let now = now_secs();
        let r = self.verify_at(token, now);
        proof {
            assert(matches_outcome(spec_verify(self@, token.spec_bytes(), now), r));
        }
        r
    }
}

} // verus!
