//! Signing keys and the key-set document.
//!
//! The provider publishes its keys as a JSON key-set document. Parsing that
//! document relies on outside code and is trusted; selecting the entry that
//! matches a requested key id, and shaping it into a [`SigningKey`], is
//! verified here.

use vstd::prelude::*;

verus! {

/// One entry of a parsed key-set document, as plain values:
/// its key id, its declared algorithm name, and its RSA components
/// (modulus, exponent), each absent where the document omits them or the
/// key is not an RSA key.
pub type JwkEntry = (Option<Seq<char>>, Option<Seq<char>>, Option<(Seq<char>, Seq<char>)>);

#[verifier::external_type_specification]
#[verifier::external_body]
pub struct ExJwkSet(jsonwebtoken::jwk::JwkSet);

/// What a parsed key-set holds, entry by entry, in document order.
pub uninterp spec fn jwks_view(s: jsonwebtoken::jwk::JwkSet) -> Seq<JwkEntry>;

/// What parsing a key-set document yields: `None` where the text is not a
/// valid key-set encoding, else its entries in order. The result depends on
/// the document text alone.
pub uninterp spec fn jwks_of(doc: Seq<char>) -> Option<Seq<JwkEntry>>;

/// Relies on serde_json::from_str with jsonwebtoken's JwkSet: parsing is a
/// function of the document text alone; failure means the text is not a
/// valid key-set encoding.
#[verifier::external_body]
fn parse_jwks(doc: &str) -> (r: Option<jsonwebtoken::jwk::JwkSet>)
    ensures
        r is Some <==> jwks_of(doc@) is Some,
        r matches Some(s) ==> jwks_view(s) == jwks_of(doc@)->0,
{
    serde_json::from_str(doc).ok()
}

/// Relies on jsonwebtoken::jwk::JwkSet: `keys` is the parsed entry list.
#[verifier::external_body]
fn jwk_count(s: &jsonwebtoken::jwk::JwkSet) -> (r: usize)
    ensures
        r == jwks_view(*s).len(),
{
    s.keys.len()
}

/// Relies on jsonwebtoken::jwk::Jwk: each entry carries an optional key id
/// and algorithm name in its common parameters, and RSA components exactly
/// when its material is RSA.
#[verifier::external_body]
fn jwk_fields(s: &jsonwebtoken::jwk::JwkSet, i: usize) -> (r: (
    Option<String>,
    Option<String>,
    Option<(String, String)>,
))
    requires
        i < jwks_view(*s).len(),
    ensures
        r.deep_view() == jwks_view(*s)[i as int],
{
    let j = &s.keys[i];
    let rsa = match &j.algorithm {
        jsonwebtoken::jwk::AlgorithmParameters::RSA(p) => Some((p.n.clone(), p.e.clone())),
        jsonwebtoken::jwk::AlgorithmParameters::EllipticCurve(_) => None,
        jsonwebtoken::jwk::AlgorithmParameters::OctetKey(_) => None,
        jsonwebtoken::jwk::AlgorithmParameters::OctetKeyPair(_) => None,
    };
    (j.common.key_id.clone(), j.common.key_algorithm.map(|a| a.to_string()), rsa)
}

/// A signing key as the validator consumes it: the key id it was filed
/// under, the algorithm name the provider declared for it, and its RSA
/// public components, all base64url text from the key-set document.
pub struct SigningKey {
    pub kid: String,
    pub alg: String,
    pub n: String,
    pub e: String,
}

impl Clone for SigningKey {
    fn clone(&self) -> (r: Self)
        ensures
            r == *self,
    {
        SigningKey {
            kid: self.kid.clone(),
            alg: self.alg.clone(),
            n: self.n.clone(),
            e: self.e.clone(),
        }
    }
}

/// The first entry filed under `kid`, if any: key lookup stops at the first
/// id match, whatever that entry holds.
pub open spec fn find_kid(entries: Seq<JwkEntry>, kid: Seq<char>) -> Option<JwkEntry>
    decreases entries.len(),
{
    if entries.len() == 0 {
        None
    } else if entries[0].0 == Some(kid) {
        Some(entries[0])
    } else {
        find_kid(entries.drop_first(), kid)
    }
}

/// The usable key for `kid`: the first entry filed under `kid`, provided it
/// declares an algorithm and carries RSA components; `(alg, n, e)`.
pub open spec fn selected_key(entries: Seq<JwkEntry>, kid: Seq<char>) -> Option<
    (Seq<char>, Seq<char>, Seq<char>),
> {
    match find_kid(entries, kid) {
        Some(entry) => match (entry.1, entry.2) {
            (Some(alg), Some(rsa)) => Some((alg, rsa.0, rsa.1)),
            _ => None,
        },
        None => None,
    }
}

/// Whether an executable selection result matches the specified one.
pub open spec fn key_matches_selection(
    r: Option<SigningKey>,
    sel: Option<(Seq<char>, Seq<char>, Seq<char>)>,
    kid: Seq<char>,
) -> bool {
    match sel {
        Some(t) => r matches Some(k) && k.kid@ == kid && k.alg@ == t.0 && k.n@ == t.1 && k.e@
            == t.2,
        None => r is None,
    }
}

proof fn lemma_find_kid_at(entries: Seq<JwkEntry>, kid: Seq<char>, i: int)
    requires
        0 <= i <= entries.len(),
        forall|j: int| 0 <= j < i ==> entries[j].0 != Some(kid),
    ensures
        i == entries.len() ==> find_kid(entries, kid) is None,
        i < entries.len() && entries[i].0 == Some(kid) ==> find_kid(entries, kid) == Some(
            entries[i],
        ),
    decreases i,
{
    if i > 0 {
        assert(entries[0].0 != Some(kid));
        let rest = entries.drop_first();
        assert(forall|j: int| 0 <= j < i - 1 ==> rest[j] == entries[j + 1]);
        lemma_find_kid_at(rest, kid, i - 1);
        if i < entries.len() {
            assert(rest[i - 1] == entries[i]);
        }
    }
}

/// Selects the signing key for `kid` from a parsed key set.
fn select_signing_key(set: &jsonwebtoken::jwk::JwkSet, kid: &String) -> (r: Option<SigningKey>)
    ensures
        key_matches_selection(r, selected_key(jwks_view(*set), kid@), kid@),
{
    let ghost entries = jwks_view(*set);
    let n = jwk_count(set);
    let mut i: usize = 0;
    while i < n
        invariant
            entries == jwks_view(*set),
            n == entries.len(),
            0 <= i <= n,
            forall|j: int| 0 <= j < i ==> entries[j].0 != Some(kid@),
        decreases n - i,
    {
        let fields = jwk_fields(set, i);
        assert(fields.deep_view() == (fields.0.deep_view(), fields.1.deep_view(), fields.2.deep_view()));
        let matched = match &fields.0 {
            Some(k) => *k == *kid,
            None => false,
        };
        if matched {
            proof {
                lemma_find_kid_at(entries, kid@, i as int);
            }
            assert(entries[i as int].0 == Some(kid@));
            assert(find_kid(entries, kid@) == Some(entries[i as int]));
            return match (fields.1, fields.2) {
                (Some(alg), Some(rsa)) => Some(
                    SigningKey { kid: kid.clone(), alg, n: rsa.0, e: rsa.1 },
                ),
                _ => None,
            };
        }
        i = i + 1;
    }
    proof {
        lemma_find_kid_at(entries, kid@, entries.len() as int);
    }
    None
}

/// Whether a fetched document is a valid key-set encoding at all.
pub fn jwks_parses(doc: &str) -> (b: bool)
    ensures
        b == (jwks_of(doc@) is Some),
{
    parse_jwks(doc).is_some()
}

/// The Key Resolver's pure half: parse a fetched key-set document and select
/// the entry for `kid`. Returns `None` both where the document is not a
/// valid key-set encoding and where it holds no usable key under `kid`.
pub fn key_from_document(doc: &str, kid: &String) -> (r: Option<SigningKey>)
    ensures
        jwks_of(doc@) is None ==> r is None,
        jwks_of(doc@) matches Some(entries) ==> key_matches_selection(
            r,
            selected_key(entries, kid@),
            kid@,
        ),
{
    match parse_jwks(doc) {
        Some(set) => select_signing_key(&set, kid),
        None => None,
    }
}

} // verus!
