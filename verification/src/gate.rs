//! The authentication gate: the request-boundary decisions.
//!
//! Per request, terminal in one hop: no bearer token means rejection; a
//! present token is validated and its subject provisioned; every validator
//! failure collapses to the same unauthorized response, and only an
//! unreachable identity store is surfaced distinctly. Nothing here
//! persists across requests.

use vstd::prelude::*;
use vstd::string::*;
use crate::identity::User;
use crate::keys::SigningKey;
use crate::token::AuthError;
use crate::token::validate_with_key_spec;

verus! {

/// The bearer token carried by an authorization header value, if any: the
/// text after the `Bearer ` scheme prefix.
pub open spec fn bearer_of(header: Seq<char>) -> Option<Seq<char>> {
    if header.len() >= 7 && header.subrange(0, 7) == "Bearer "@ {
        Some(header.subrange(7, header.len() as int))
    } else {
        None
    }
}

/// Extract the bearer token from an authorization header value.
pub fn extract_bearer<'a>(header: &'a str) -> (r: Option<&'a str>)
    ensures
        r is Some <==> bearer_of(header@) is Some,
        r matches Some(t) ==> bearer_of(header@) == Some(t@),
{
    proof {
        reveal_strlit("Bearer ");
    }
    let n = header.unicode_len();
    if n < 7 {
        return None;
    }
    let scheme = "Bearer ";
    let mut i: usize = 0;
    while i < 7
        invariant
            7 <= n == header@.len(),
            0 <= i <= 7,
            scheme@ == "Bearer "@,
            scheme@.len() == 7,
            forall|j: int| 0 <= j < i ==> header@[j] == scheme@[j],
        decreases 7 - i,
    {
        proof {
            reveal_strlit("Bearer ");
        }
        if header.get_char(i) != scheme.get_char(i) {
            assert(header@[i as int] != "Bearer "@[i as int]);
            assert(header@.subrange(0, 7) != "Bearer "@);
            return None;
        }
        i = i + 1;
    }
    assert(header@.subrange(0, 7) =~= "Bearer "@);
    Some(header.substring_char(7, n))
}

/// What one request is answered at the boundary.
pub enum GateResponse {
    /// Authentication succeeded; the identity travels with the request.
    Allow(User),
    /// No usable credential: the uniform `401`.
    Unauthorized,
    /// The identity store was unreachable: the `503`-class answer.
    ServiceUnavailable,
}

/// How an authentication outcome is answered: success passes the identity
/// through; an unreachable store is infrastructure failure; every other
/// failure is the same unauthorized answer, leaking no kind.
pub open spec fn gate_spec(outcome: Result<User, AuthError>) -> GateResponse {
    match outcome {
        Ok(u) => GateResponse::Allow(u),
        Err(AuthError::StoreUnavailable) => GateResponse::ServiceUnavailable,
        Err(_) => GateResponse::Unauthorized,
    }
}

/// Collapse the validator/provisioner outcome into the response.
pub fn gate_response(outcome: Result<User, AuthError>) -> (r: GateResponse)
    ensures
        r == gate_spec(outcome),
{
    match outcome {
        Ok(u) => GateResponse::Allow(u),
        Err(AuthError::StoreUnavailable) => GateResponse::ServiceUnavailable,
        Err(_) => GateResponse::Unauthorized,
    }
}

/// A valid, unexpired, correctly signed token under a known key is allowed
/// through, and the attached identity's id is exactly the token's `sub`.
pub proof fn lemma_valid_token_allowed(
    issuer: Seq<char>,
    token: Seq<char>,
    key: SigningKey,
    now: u64,
    u: User,
)
    requires
        validate_with_key_spec(issuer, token, key, now) is Ok,
        u.id.0@ == validate_with_key_spec(issuer, token, key, now)->Ok_0,
    ensures
        gate_spec(Ok(u)) matches GateResponse::Allow(w) && w.id.0@ == validate_with_key_spec(
            issuer,
            token,
            key,
            now,
        )->Ok_0,
{
}

/// Every validator failure kind is answered with the same unauthorized
/// response: the outward answer distinguishes nothing about why.
pub proof fn lemma_validator_failures_uniform(e: AuthError)
    requires
        e != AuthError::StoreUnavailable,
    ensures
        gate_spec(Err(e)) == GateResponse::Unauthorized,
{
}

/// Whatever makes the validator reject — a tampered signature, a past
/// `exp`, a foreign `iss`, a malformed token, a missing subject — the
/// request is answered with the same unauthorized response: the validator
/// never reports store unavailability, so no rejected token ever reaches
/// the infrastructure-failure answer.
pub proof fn lemma_rejected_token_unauthorized(
    issuer: Seq<char>,
    token: Seq<char>,
    key: SigningKey,
    now: u64,
)
    requires
        validate_with_key_spec(issuer, token, key, now) is Err,
    ensures
        gate_spec(
            Err(validate_with_key_spec(issuer, token, key, now)->Err_0),
        ) == GateResponse::Unauthorized,
{
}

} // verus!
