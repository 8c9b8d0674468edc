//! Request-authentication core for a campaign/lead backend.
//!
//! The library verifies bearer tokens issued by a remote identity provider
//! against a rotating set of published signing keys, caches those keys with
//! single-flight coordination, and provisions local user identities
//! idempotently on first sight of a subject. The surrounding HTTP server,
//! network fetches and database round trips live outside the library and
//! hand it plain values.

pub mod configuration;
pub mod gate;
pub mod identity;
pub mod cache;
pub mod keys;
pub mod leads;
pub mod records;
pub mod token;
