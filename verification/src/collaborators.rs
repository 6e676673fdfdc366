//! Where the errors of the storage and cache clients enter the taxonomy.
//! Their types are opaque here: all that is taken from an error is the text
//! that its `Display` writes.

use std::fmt::Write;
use vstd::prelude::*;
use crate::failure::{Cause, FailureKind};

verus! {

/// The error type of the `sqlx` storage client, carried as an opaque value.
#[verifier::external_type_specification]
#[verifier::external_body]
pub struct ExStoreError(sqlx::Error);

/// The error type of the `redis` cache client, carried as an opaque value.
#[verifier::external_type_specification]
#[verifier::external_body]
pub struct ExCacheError(redis::RedisError);

/// Writes `error` with the `Display` of `sqlx::Error` and hands back what
/// was written.
///
/// Trusted, and nothing is claimed of the text: it depends on what the
/// error holds, which is not visible here, and for an I/O error on the
/// platform's wording.
#[verifier::external_body]
fn store_error_text(error: &sqlx::Error) -> (text: String) {
    let mut text = String::new();
    let _ = write!(text, "{}", error);
    text
}

/// Writes `error` with the `Display` of `redis::RedisError` and hands back
/// what was written.
///
/// Trusted, and nothing is claimed of the text: it depends on what the
/// error holds, which is not visible here, and for an I/O error on the
/// platform's wording.
#[verifier::external_body]
fn cache_error_text(error: &redis::RedisError) -> (text: String) {
    let mut text = String::new();
    let _ = write!(text, "{}", error);
    text
}

impl FailureKind {
    /// Wraps an error of the storage client. Every error is accepted; the
    /// result is a `StoreFailure` whose cause reads as the error displays.
    pub fn classify_store(error: sqlx::Error) -> (kind: FailureKind)
        ensures
            kind is StoreFailure,
    {
        let text = store_error_text(&error);
        FailureKind::store_failure(Cause::new(text))
    }

    /// Wraps an error of the cache client. Every error is accepted; the
    /// result is a `CacheFailure` whose cause reads as the error displays.
    pub fn classify_cache(error: redis::RedisError) -> (kind: FailureKind)
        ensures
            kind is CacheFailure,
    {
        let text = cache_error_text(&error);
        FailureKind::cache_failure(Cause::new(text))
    }
}

} // verus!
