//! Provider and store configuration.
//!
//! The identity provider is addressed by region and user-pool id; from these
//! the issuer URL (checked against the `iss` claim) and the key-set URL
//! (fetched for signing keys) are derived deterministically.

use vstd::prelude::*;
use vstd::string::*;

verus! {

/// The issuer URL that tokens from the given pool must carry in `iss`.
pub open spec fn issuer_of(region: Seq<char>, pool: Seq<char>) -> Seq<char> {
    "https://cognito-idp."@ + region + ".amazonaws.com/"@ + pool
}

/// The URL under which the provider publishes its signing-key set.
pub open spec fn jwks_uri_of(region: Seq<char>, pool: Seq<char>) -> Seq<char> {
    issuer_of(region, pool) + "/.well-known/jwks.json"@
}

/// Identifies the issuing authority; immutable, loaded once at startup.
#[derive(Debug)]
pub struct CognitoConfig {
    pub region: String,
    pub user_pool_id: String,
}

impl Clone for CognitoConfig {
    fn clone(&self) -> (r: Self)
        ensures
            r.region@ == self.region@,
            r.user_pool_id@ == self.user_pool_id@,
    {
        CognitoConfig { region: self.region.clone(), user_pool_id: self.user_pool_id.clone() }
    }
}

impl CognitoConfig {
    /// The key-set URL derived from the configured region and pool.
    pub fn jwks_uri(&self) -> (r: String)
        ensures
            r@ == jwks_uri_of(self.region@, self.user_pool_id@),
    {
        let mut s = self.issuer();
        s.append("/.well-known/jwks.json");
        s
    }

    /// The issuer URL derived from the configured region and pool.
    pub fn issuer(&self) -> (r: String)
        ensures
            r@ == issuer_of(self.region@, self.user_pool_id@),
    {
        let mut s = String::from_str("https://cognito-idp.");
        s.append(self.region.as_str());
        s.append(".amazonaws.com/");
        s.append(self.user_pool_id.as_str());
        s
    }
}

/// Connection parameters for the relational store; consumed outside the
/// library when a connection pool is opened.
#[derive(Debug)]
pub struct DatabaseConfig {
    pub host: String,
    pub port: u16,
    pub username: String,
    pub password: String,
    pub database: String,
}

} // verus!
