//! Caching: errors and key naming in a shared store.

use vstd::prelude::*;
use vstd::string::*;

verus! {

/// Errors of a cache store.
#[derive(Debug, Clone)]
pub enum CacheError {
    Connection(String),
    Serialization(String),
    NotFound(String),
}

/// The message of a cache error.
pub open spec fn spec_cache_error_message(e: CacheError) -> Seq<char> {
    match e {
        CacheError::Connection(m) => "Cache connection error: "@ + m@,
        CacheError::Serialization(m) => "Serialization error: "@ + m@,
        CacheError::NotFound(m) => "Key not found: "@ + m@,
    }
}

impl CacheError {
    /// The message of this error.
    pub fn message(&self) -> (r: String)
        ensures
            r@ == spec_cache_error_message(*self),
    {
        let (prefix, m) = match self {
            CacheError::Connection(m) => ("Cache connection error: ", m),
            CacheError::Serialization(m) => ("Serialization error: ", m),
            CacheError::NotFound(m) => ("Key not found: ", m),
        };
        let mut r = String::from_str(prefix);
        r.append(m.as_str());
        r
    }
}

/// The key a shared store uses for `key`: `prefix:key`.
pub fn prefixed_key(prefix: &str, key: &str) -> (r: String)
    ensures
        r@ == prefix@ + ":"@ + key@,
{
    let mut r = String::from_str(prefix);
    r.append(":");
    r.append(key);
    r
}

/// The pattern that matches every key of the store: `prefix:*`.
pub fn clear_pattern(prefix: &str) -> (r: String)
    ensures
        r@ == prefix@ + ":*"@,
{
    let mut r = String::from_str(prefix);
    r.append(":*");
    r
}

/// A cache storage backend. Implementations hold byte values under string
/// keys, optionally for a limited time.
pub trait CacheStore {
    /// The value under `key`, if there is one.
    fn get(&self, key: &str) -> Result<Option<Vec<u8>>, CacheError>;

    /// Stores `value` under `key`, for `ttl` when given.
    fn set(&self, key: &str, value: &[u8], ttl: Option<std::time::Duration>) -> Result<(), CacheError>;

    /// Removes `key`.
    fn delete(&self, key: &str) -> Result<(), CacheError>;

    /// Whether `key` holds a value.
    fn has(&self, key: &str) -> Result<bool, CacheError>;

    /// Removes every entry.
    fn clear(&self) -> Result<(), CacheError>;
}

/// The caches of a running instance: data, system, schema and locks.
pub struct CacheManager {
    pub data: Box<dyn CacheStore>,
    pub system: Box<dyn CacheStore>,
    pub schema: Box<dyn CacheStore>,
    pub lock: Box<dyn CacheStore>,
}

} // verus!
