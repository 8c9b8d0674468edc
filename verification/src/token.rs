//! Token validation.
//!
//! A bearer token is checked in one pass: its header must parse and carry a
//! key id; the algorithm it declares must lie in the RSA allowlist and
//! agree with the algorithm the resolved key was published under — the
//! header's claim alone never selects the verification mode; its signature
//! must verify under that key; and its `exp`, `iss` and `sub` claims must
//! be present and acceptable. Signature verification and claim extraction
//! rely on outside code; every decision taken on their results is verified.

use vstd::prelude::*;
use vstd::string::*;
use std::collections::HashSet;
use jsonwebtoken::Algorithm;
use jsonwebtoken::DecodingKey;
use jsonwebtoken::Validation;
use serde_json::Value;
use crate::keys::SigningKey;

verus! {

/// Why authentication failed. All validator kinds collapse to one uniform
/// rejection at the request boundary; the kind itself is for observability.
#[derive(Clone, Copy, PartialEq, Eq, Structural, Debug)]
pub enum AuthError {
    /// The token is not well-formed or lacks a header `alg`/`kid`.
    MalformedToken,
    /// No signing key is published under the token's `kid`.
    UnknownSigningKey,
    /// The signature does not verify, or the declared algorithm is not
    /// allowlisted for the key.
    BadSignature,
    /// The `exp` claim is absent or not in the future.
    TokenExpired,
    /// The `iss` claim is absent or differs from the configured issuer.
    IssuerMismatch,
    /// The `sub` claim is absent or not a well-formed subject identifier.
    MissingSubject,
    /// The key-set document could not be fetched.
    KeySetFetchError,
    /// The identity store could not be reached.
    StoreUnavailable,
}

/// What reading a token's header yields: `None` where the token is not
/// three dot-separated segments with a decodable header, else the declared
/// algorithm name and the optional key id. A function of the token text
/// alone.
pub uninterp spec fn jwt_header_of(token: Seq<char>) -> Option<(Seq<char>, Option<Seq<char>>)>;

/// Relies on jsonwebtoken::decode_header: reads `alg` and `kid` from the
/// header segment without verifying anything else.
#[verifier::external_body]
fn decode_header_fields(token: &str) -> (r: Option<(String, Option<String>)>)
    ensures
        r is Some <==> jwt_header_of(token@) is Some,
        r matches Some(h) ==> jwt_header_of(token@) == Some((h.0@, h.1.deep_view())),
{
    match jsonwebtoken::decode_header(token) {
        Ok(h) => Some((format!("{:?}", h.alg), h.kid)),
        Err(_) => None,
    }
}

/// What verifying a token against RSA public components `(n, e)` and then
/// reading its payload yields: `None` exactly where the signature does not
/// verify under the RSA-family allowlist (or token or key text is
/// unusable), else the payload's `sub`, `exp` and `iss` claims, each absent
/// where the payload omits it. A function of the three texts alone.
pub uninterp spec fn rsa_claims(token: Seq<char>, n: Seq<char>, e: Seq<char>) -> Option<
    (Option<Seq<char>>, Option<u64>, Option<Seq<char>>),
>;

/// Relies on jsonwebtoken::decode restricted to the RSA family (RS256,
/// RS384, RS512) with claim validation switched off: only the signature is
/// checked here; every claim decision is taken by the caller.
#[verifier::external_body]
fn decode_rsa_claims(token: &str, n: &str, e: &str) -> (r: Option<
    (Option<String>, Option<u64>, Option<String>),
>)
    ensures
        r is Some <==> rsa_claims(token@, n@, e@) is Some,
        r matches Some(c) ==> rsa_claims(token@, n@, e@) == Some(
            (c.0.deep_view(), c.1, c.2.deep_view()),
        ),
{
    let key = DecodingKey::from_rsa_components(n, e).ok()?;
    let mut validation = Validation::new(Algorithm::RS256);
    validation.algorithms = vec![Algorithm::RS256, Algorithm::RS384, Algorithm::RS512];
    validation.validate_exp = false;
    validation.validate_aud = false;
    validation.required_spec_claims = HashSet::new();
    let data = jsonwebtoken::decode::<Value>(token, &key, &validation).ok()?;
    let sub = data.claims.get("sub").and_then(|v| v.as_str()).map(|s| s.to_string());
    let exp = data.claims.get("exp").and_then(|v| v.as_u64());
    let iss = data.claims.get("iss").and_then(|v| v.as_str()).map(|s| s.to_string());
    Some((sub, exp, iss))
}

/// The known-safe algorithm allowlist: the RSA family only.
pub open spec fn rsa_allowlisted(alg: Seq<char>) -> bool {
    alg == "RS256"@ || alg == "RS384"@ || alg == "RS512"@
}

/// A hexadecimal digit: `0`–`9` (code points 48–57), `a`–`f` (97–102) or
/// `A`–`F` (65–70).
pub open spec fn is_hex_digit(c: char) -> bool {
    (48 <= c as u32 && c as u32 <= 57) || (97 <= c as u32 && c as u32 <= 102) || (65 <= c as u32
        && c as u32 <= 70)
}

/// A well-formed subject identifier: a UUID in its canonical hyphenated
/// text form — groups of 8, 4, 4, 4 and 12 hexadecimal digits, separated
/// by hyphens.
pub open spec fn is_uuid_text(s: Seq<char>) -> bool {
    s.len() == 36 && forall|i: int|
        0 <= i < 36 ==> (if i == 8 || i == 13 || i == 18 || i == 23 {
            s[i] == '-'
        } else {
            is_hex_digit(s[i])
        })
}

/// Whether a subject is well-formed canonical UUID text.
pub fn uuid_shaped(s: &str) -> (b: bool)
    ensures
        b == is_uuid_text(s@),
{
    let n = s.unicode_len();
    if n != 36 {
        return false;
    }
    let mut i: usize = 0;
    while i < 36
        invariant
            s@.len() == 36,
            0 <= i <= 36,
            forall|j: int|
                0 <= j < i ==> (if j == 8 || j == 13 || j == 18 || j == 23 {
                    s@[j] == '-'
                } else {
                    is_hex_digit(s@[j])
                }),
        decreases 36 - i,
    {
        let c = s.get_char(i);
        let ok = if i == 8 || i == 13 || i == 18 || i == 23 {
            c == '-'
        } else {
            let u = c as u32;
            (48 <= u && u <= 57) || (97 <= u && u <= 102) || (65 <= u && u <= 70)
        };
        if !ok {
            assert(!is_uuid_text(s@));
            return false;
        }
        i = i + 1;
    }
    true
}

/// The whole validator decision, given the resolved key: exactly which
/// subject, or which error, a token yields at time `now` against `issuer`.
pub open spec fn validate_with_key_spec(
    issuer: Seq<char>,
    token: Seq<char>,
    key: SigningKey,
    now: u64,
) -> Result<Seq<char>, AuthError> {
    match jwt_header_of(token) {
        None => Err(AuthError::MalformedToken),
        Some((alg, kid_opt)) => {
            if kid_opt is None {
                Err(AuthError::MalformedToken)
            } else if !(rsa_allowlisted(alg) && key.alg@ == alg) {
                Err(AuthError::BadSignature)
            } else {
                match rsa_claims(token, key.n@, key.e@) {
                    None => Err(AuthError::BadSignature),
                    Some((sub, exp, iss)) => {
                        if !(exp matches Some(x) && now < x) {
                            Err(AuthError::TokenExpired)
                        } else if !(iss matches Some(s) && s == issuer) {
                            Err(AuthError::IssuerMismatch)
                        } else if !(sub matches Some(s) && is_uuid_text(s)) {
                            Err(AuthError::MissingSubject)
                        } else {
                            Ok(sub->0)
                        }
                    },
                }
            }
        },
    }
}

/// Whether an executable validation result carries the specified one.
pub open spec fn subject_result_matches(
    r: Result<String, AuthError>,
    s: Result<Seq<char>, AuthError>,
) -> bool {
    match r {
        Ok(v) => s matches Ok(w) && v@ == w,
        Err(x) => s matches Err(y) && x == y,
    }
}

fn is_allowlisted_alg(alg: &String) -> (b: bool)
    ensures
        b == rsa_allowlisted(alg@),
{
    *alg == String::from_str("RS256") || *alg == String::from_str("RS384") || *alg
        == String::from_str("RS512")
}

/// Validate `token` at time `now` with the key the cache resolved for its
/// `kid`: algorithm allowlist, signature, then `exp`, `iss`, `sub`.
pub fn validate_with_key(issuer: &String, token: &str, key: &SigningKey, now: u64) -> (r: Result<
    String,
    AuthError,
>)
    ensures
        subject_result_matches(r, validate_with_key_spec(issuer@, token@, *key, now)),
{
    match decode_header_fields(token) {
        None => Err(AuthError::MalformedToken),
        Some((alg, kid_opt)) => {
            if kid_opt.is_none() {
                Err(AuthError::MalformedToken)
            } else if !(is_allowlisted_alg(&alg) && key.alg == alg) {
                Err(AuthError::BadSignature)
            } else {
                match decode_rsa_claims(token, key.n.as_str(), key.e.as_str()) {
                    None => Err(AuthError::BadSignature),
                    Some((sub, exp, iss)) => {
                        let exp_ok = match exp {
                            Some(x) => now < x,
                            None => false,
                        };
                        let iss_ok = match &iss {
                            Some(s) => *s == *issuer,
                            None => false,
                        };
                        if !exp_ok {
                            Err(AuthError::TokenExpired)
                        } else if !iss_ok {
                            Err(AuthError::IssuerMismatch)
                        } else {
                            match sub {
                                Some(s) => {
                                    if uuid_shaped(s.as_str()) {
                                        Ok(s)
                                    } else {
                                        Err(AuthError::MissingSubject)
                                    }
                                },
                                None => Err(AuthError::MissingSubject),
                            }
                        }
                    },
                }
            }
        },
    }
}

/// The validator's second step, after the cache resolved the token's key
/// id: no published key under that id — even after a fresh fetch — is the
/// unknown-signer rejection.
pub fn require_key(key: Option<SigningKey>) -> (r: Result<SigningKey, AuthError>)
    ensures
        key matches Some(k) ==> r matches Ok(k2) && k2 == k,
        key is None ==> r == Err::<SigningKey, AuthError>(AuthError::UnknownSigningKey),
{
    match key {
        Some(k) => Ok(k),
        None => Err(AuthError::UnknownSigningKey),
    }
}

/// The key id a token asks to be verified under: the first step of the
/// validator, taken before any key is resolved. A token without a
/// decodable header or without a `kid` is malformed.
pub fn token_kid(token: &str) -> (r: Result<String, AuthError>)
    ensures
        match jwt_header_of(token@) {
            None => r == Err::<String, AuthError>(AuthError::MalformedToken),
            Some(h) => match h.1 {
                None => r == Err::<String, AuthError>(AuthError::MalformedToken),
                Some(k) => r matches Ok(s) && s@ == k,
            },
        },
{
    match decode_header_fields(token) {
        None => Err(AuthError::MalformedToken),
        Some((_, kid_opt)) => match kid_opt {
            Some(kid) => Ok(kid),
            None => Err(AuthError::MalformedToken),
        },
    }
}

/// A token whose signature does not verify under the resolved key is
/// rejected whatever its claims say.
pub proof fn lemma_tampered_signature_rejected(
    issuer: Seq<char>,
    token: Seq<char>,
    key: SigningKey,
    now: u64,
)
    requires
        rsa_claims(token, key.n@, key.e@) is None,
    ensures
        validate_with_key_spec(issuer, token, key, now) is Err,
{
}

/// A token whose `exp` is absent or not in the future is rejected, whatever
/// else it carries.
pub proof fn lemma_expired_rejected(issuer: Seq<char>, token: Seq<char>, key: SigningKey, now: u64)
    requires
        rsa_claims(token, key.n@, key.e@) matches Some(c) ==> !(c.1 matches Some(x) && now < x),
    ensures
        validate_with_key_spec(issuer, token, key, now) is Err,
{
}

/// A token whose `iss` differs from the configured issuer is rejected,
/// however valid its signature and expiry are.
pub proof fn lemma_issuer_mismatch_rejected(
    issuer: Seq<char>,
    token: Seq<char>,
    key: SigningKey,
    now: u64,
)
    requires
        rsa_claims(token, key.n@, key.e@) matches Some(c) ==> !(c.2 matches Some(s) && s
            == issuer),
    ensures
        validate_with_key_spec(issuer, token, key, now) is Err,
{
}

/// Acceptance is exact: a token is accepted only when its header parses
/// with a key id, its algorithm is allowlisted and matches the key's, its
/// signature verifies, and its claims carry a future `exp`, the configured
/// `iss`, and a well-formed `sub` — which is the subject returned.
pub proof fn lemma_acceptance_is_exact(
    issuer: Seq<char>,
    token: Seq<char>,
    key: SigningKey,
    now: u64,
)
    requires
        validate_with_key_spec(issuer, token, key, now) is Ok,
    ensures
        jwt_header_of(token) matches Some(h) && h.1 is Some && rsa_allowlisted(h.0) && key.alg@
            == h.0,
        rsa_claims(token, key.n@, key.e@) matches Some(c) && (c.1 matches Some(x) && now < x) && (
        c.2 matches Some(s) && s == issuer) && (c.0 matches Some(s) && is_uuid_text(s)) && (
        validate_with_key_spec(issuer, token, key, now) == Ok::<Seq<char>, AuthError>(c.0->0)),
{
}

} // verus!
