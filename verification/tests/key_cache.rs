use prostor::cache::FAILURE_TTL_SECS;
use prostor::cache::KeyCache;
use prostor::cache::LookupDecision;
use prostor::cache::NEGATIVE_TTL_SECS;
use prostor::cache::POSITIVE_TTL_SECS;
use prostor::keys::key_from_document;
use prostor::token::AuthError;

const CACHE_RSA_N: &str = "s36hD7ZDQGMuFIGwbiYad20Ta0nFkhN_3Uw-n3kueucIGfZbz7evDchHMJMOhogAgK2WxtUz7GteHJhIIHceK33oBld3Wb7A-i_lPk6voBsl0k5sYwkt8PSaSs4LEYnrfWClrb8B5DzNEBHenvvmCRsJV_S1kpxgfc6GSeMc6r_OHe4xTlIz46pklOnujRZmpTC0iupYYCCfR0o7W-G2eyLsBCSNNAbAHhWPlPIBMgge5Ujda-JDlzD5Yqeib0cZqmd1w3W8dDcDzkXtz6bsTSF-tgxVji4z1b-RMkiwf87tTxD3YjW-0imxuOhElP6VL2gVHjD2_XU4zh3mMHBMPQ";

fn rsa_doc() -> String {
    format!(
        "{{\"keys\":[{{\"kty\":\"RSA\",\"n\":\"{}\",\"e\":\"AQAB\",\"kid\":\"key1\",\"alg\":\"RS256\"}}]}}",
        CACHE_RSA_N
    )
}

#[test]
fn concurrent_misses_share_one_fetch() {
    let mut cache = KeyCache::new();
    let kid = "key1".to_string();
    let t: u64 = 100;

    // N simultaneous requests miss on the same kid: the first is told to
    // fetch, every other one awaits that fetch.
    assert!(matches!(cache.begin_lookup(&kid, t), LookupDecision::Fetch));
    assert!(matches!(cache.begin_lookup(&kid, t), LookupDecision::Await));
    assert!(matches!(cache.begin_lookup(&kid, t + 1), LookupDecision::Await));

    // The one fetch completes; all of them resolve from its result.
    let doc = rsa_doc();
    let key = cache.finish_fetch(&kid, Some(&doc), t).unwrap().unwrap();
    assert_eq!(key.kid, "key1");
    assert_eq!(key.alg, "RS256");
    assert_eq!(key.n, CACHE_RSA_N);
    assert_eq!(key.e, "AQAB");

    match cache.begin_lookup(&kid, t + 2) {
        LookupDecision::UseKey(k) => assert_eq!(k.n, CACHE_RSA_N),
        _ => panic!("expected a cache hit after the fetch installed"),
    }
}

#[test]
fn positive_entry_expires_after_ttl() {
    let mut cache = KeyCache::new();
    let kid = "key1".to_string();
    let t: u64 = 1000;

    assert!(matches!(cache.begin_lookup(&kid, t), LookupDecision::Fetch));
    let doc = rsa_doc();
    cache.finish_fetch(&kid, Some(&doc), t).unwrap();

    assert!(matches!(
        cache.begin_lookup(&kid, t + POSITIVE_TTL_SECS - 1),
        LookupDecision::UseKey(_)
    ));
    assert!(matches!(cache.begin_lookup(&kid, t + POSITIVE_TTL_SECS), LookupDecision::Fetch));
    // The expiry marked the id in flight again: one refetch, shared.
    assert!(matches!(cache.begin_lookup(&kid, t + POSITIVE_TTL_SECS), LookupDecision::Await));
}

#[test]
fn unknown_kid_is_negatively_cached() {
    let mut cache = KeyCache::new();
    let kid = "rotated-away".to_string();
    let t: u64 = 1000;

    assert!(matches!(cache.begin_lookup(&kid, t), LookupDecision::Fetch));
    let doc = rsa_doc();
    let found = cache.finish_fetch(&kid, Some(&doc), t).unwrap();
    assert!(found.is_none());

    // Within the short negative window the answer comes from the cache.
    assert!(matches!(
        cache.begin_lookup(&kid, t + NEGATIVE_TTL_SECS - 1),
        LookupDecision::UnknownKey
    ));
    // After it, the next request refetches.
    assert!(matches!(cache.begin_lookup(&kid, t + NEGATIVE_TTL_SECS), LookupDecision::Fetch));
}

#[test]
fn failed_fetch_failure_is_shared() {
    let mut cache = KeyCache::new();
    let kid = "key1".to_string();
    let t: u64 = 50;

    assert!(matches!(cache.begin_lookup(&kid, t), LookupDecision::Fetch));
    let r = cache.finish_fetch(&kid, None, t);
    assert!(matches!(r, Err(AuthError::KeySetFetchError)));

    // Callers concurrent with the failed fetch receive that one failure:
    // none starts a fetch of its own within the failure window.
    assert!(matches!(cache.begin_lookup(&kid, t + 1), LookupDecision::FetchFailed));
    assert!(matches!(
        cache.begin_lookup(&kid, t + FAILURE_TTL_SECS - 1),
        LookupDecision::FetchFailed
    ));
    // The failure is transient: the first request after the window retries.
    assert!(matches!(cache.begin_lookup(&kid, t + FAILURE_TTL_SECS), LookupDecision::Fetch));
}

#[test]
fn malformed_document_is_a_fetch_error() {
    let mut cache = KeyCache::new();
    let kid = "key1".to_string();

    assert!(matches!(cache.begin_lookup(&kid, 10), LookupDecision::Fetch));
    let r = cache.finish_fetch(&kid, Some("this is not a key set"), 10);
    assert!(matches!(r, Err(AuthError::KeySetFetchError)));
    // The parse failure is shared within the window, then retried.
    assert!(matches!(cache.begin_lookup(&kid, 11), LookupDecision::FetchFailed));
    assert!(matches!(cache.begin_lookup(&kid, 10 + FAILURE_TTL_SECS), LookupDecision::Fetch));
}

#[test]
fn distinct_kids_fetch_independently() {
    let mut cache = KeyCache::new();
    let a = "key1".to_string();
    let b = "key2".to_string();

    assert!(matches!(cache.begin_lookup(&a, 5), LookupDecision::Fetch));
    // A miss on a different kid is its own fetch, not an await.
    assert!(matches!(cache.begin_lookup(&b, 5), LookupDecision::Fetch));
    assert!(matches!(cache.begin_lookup(&a, 5), LookupDecision::Await));
    assert!(matches!(cache.begin_lookup(&b, 5), LookupDecision::Await));
}

#[test]
fn document_selection_takes_first_id_match() {
    let kid = "key1".to_string();
    let ec_then_rsa = format!(
        "{{\"keys\":[{{\"kty\":\"EC\",\"crv\":\"P-256\",\"x\":\"AQAB\",\"y\":\"AQAB\",\"kid\":\"key1\"}},{{\"kty\":\"RSA\",\"n\":\"{}\",\"e\":\"AQAB\",\"kid\":\"key1\",\"alg\":\"RS256\"}}]}}",
        CACHE_RSA_N
    );
    // Lookup stops at the first entry filed under the id; that entry is not
    // an RSA key, so no key is usable.
    assert!(key_from_document(&ec_then_rsa, &kid).is_none());
}

#[test]
fn document_selection_reads_rsa_components() {
    let kid = "key1".to_string();
    let doc = rsa_doc();
    let key = key_from_document(&doc, &kid).unwrap();
    assert_eq!(key.kid, "key1");
    assert_eq!(key.alg, "RS256");
    assert_eq!(key.n, CACHE_RSA_N);
    assert_eq!(key.e, "AQAB");
    assert!(key_from_document(&doc, &"absent".to_string()).is_none());
    assert!(key_from_document("not json", &kid).is_none());
}

#[test]
fn rsa_entry_without_alg_is_unusable() {
    let kid = "key1".to_string();
    let doc = format!(
        "{{\"keys\":[{{\"kty\":\"RSA\",\"n\":\"{}\",\"e\":\"AQAB\",\"kid\":\"key1\"}}]}}",
        CACHE_RSA_N
    );
    assert!(key_from_document(&doc, &kid).is_none());
}
