use vstd::prelude::*;

use crate::cache::CacheError;

verus! {

/// A store of text values by key.
pub trait Cache {
    /// Stores `value` under `key`.
    fn set(&self, key: &str, value: String) -> Result<(), CacheError>;

    /// The value stored under `key`.
    fn get(&self, key: &str) -> Result<String, CacheError>;
}

/// A store of text values that stores nothing.
pub struct NoOpCache;

impl NoOpCache {
    pub fn new() -> (r: NoOpCache) {
        NoOpCache {  }
    }
}

impl Cache for NoOpCache {
    /// Accepts the value and drops it.
    fn set(&self, key: &str, value: String) -> (r: Result<(), CacheError>)
        ensures
            r is Ok,
    {
        Ok(())
    }

    /// Never finds anything.
    fn get(&self, key: &str) -> (r: Result<String, CacheError>)
        ensures
            r matches Err(CacheError::Disabled),
    {
        Err(CacheError::Disabled)
    }
}

} // verus!
