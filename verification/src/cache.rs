use vstd::prelude::*;

verus! {

/// Why a cache operation failed.
#[derive(Debug)]
pub enum CacheError {
    /// The connection to the cache server could not be established.
    NoConnection,
    /// The lock that guards the connection could not be taken.
    NoLock,
    /// The cache is switched off.
    Disabled,
    /// The cache server reported an error.
    Backend { description: String },
}

/// The text that describes an error.
pub open spec fn error_text(e: CacheError) -> Seq<char> {
    match e {
        CacheError::NoConnection => "No connection acquired"@,
        CacheError::NoLock => "No lock for get cache connection"@,
        CacheError::Disabled => "No Op Cache"@,
        CacheError::Backend { description } => description@,
    }
}

impl CacheError {
    /// The text that describes the error.
    pub fn description(&self) -> (r: String)
        ensures
            r@ == error_text(*self),
    {
        match self {
            CacheError::NoConnection => String::from_str("No connection acquired"),
            CacheError::NoLock => String::from_str("No lock for get cache connection"),
            CacheError::Disabled => String::from_str("No Op Cache"),
            CacheError::Backend { description } => description.clone(),
        }
    }
}

/// Whether an operation may go to the cache server: the lock that guards
/// the connection must be taken, then the connection must be there.
pub fn connection_status(lock_acquired: bool, connected: bool) -> (r: Result<(), CacheError>)
    ensures
        !lock_acquired ==> r matches Err(CacheError::NoLock),
        lock_acquired && !connected ==> r matches Err(CacheError::NoConnection),
        lock_acquired && connected ==> r is Ok,
{
    if !lock_acquired {
        Err(CacheError::NoLock)
    } else if !connected {
        Err(CacheError::NoConnection)
    } else {
        Ok(())
    }
}

/// A store of response bodies by key.
pub trait Cache {
    /// The largest body, in bytes, that is worth storing.
    fn max_length(&self) -> u64;

    /// Stores `value` under `key`.
    fn set(&self, key: &str, value: Vec<u8>) -> Result<(), CacheError>;

    /// The value stored under `key`.
    fn get(&self, key: &str) -> Result<Vec<u8>, CacheError>;
}

/// A cache that stores nothing.
pub struct NoOpCache;

impl NoOpCache {
    pub fn new() -> (r: NoOpCache) {
        NoOpCache {  }
    }
}

impl Cache for NoOpCache {
    /// Nothing is worth storing.
    fn max_length(&self) -> (r: u64)
        ensures
            r == 0,
    {
        0u64
    }

    /// Accepts the value and drops it.
    fn set(&self, key: &str, value: Vec<u8>) -> (r: Result<(), CacheError>)
        ensures
            r is Ok,
    {
        Ok(())
    }

    /// Never finds anything.
    fn get(&self, key: &str) -> (r: Result<Vec<u8>, CacheError>)
        ensures
            r matches Err(CacheError::Disabled),
    {
        Err(CacheError::Disabled)
    }
}

} // verus!
