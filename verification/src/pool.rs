//! How the connection pool is set up. The pool itself belongs to the caller;
//! these are the limits it is built with.

use vstd::prelude::*;

verus! {

/// The most connections that may be checked out of the pool at one time.
pub const MAX_POOL_SIZE: usize = 16;

/// How a connection that comes back to the pool is readied for its next use.
#[derive(Debug, Clone, Copy, PartialEq, Eq)]
pub enum Recycling {
    /// Reuse it without a round trip to the database: a connection that
    /// broke just before may be handed out once more, in exchange for lower
    /// latency on every request.
    Fast,
    /// Run a test query on it first.
    Verified,
}

/// The limits a pool is built with.
#[derive(Debug, Clone, Copy, PartialEq, Eq)]
pub struct PoolSettings {
    pub max_size: usize,
    pub recycling: Recycling,
}

/// The settings of the service's pool: at most sixteen connections, recycled
/// fast.
pub fn pool_settings() -> (settings: PoolSettings)
    ensures
        settings.max_size == 16,
        settings.recycling == Recycling::Fast,
{
    PoolSettings { max_size: MAX_POOL_SIZE, recycling: Recycling::Fast }
}

} // verus!
