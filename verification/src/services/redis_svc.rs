//! The cache of resolved users and of the permission catalogue: where entries are
//! kept and for how long.

use vstd::prelude::*;
use vstd::string::*;
use std::sync::Arc;
use crate::constants::CACHE_TTL_SECONDS;
use crate::text::join2;

verus! {

/// The key under which the permission catalogue is cached.
pub const PERMISSIONS_KEY: &'static str = "permissions";

/// The key under which the resolved user of a subject is cached.
pub fn current_user_key(subject: &str) -> (key: String)
    ensures
        key@ == "current_user_"@ + subject@,
{
    join2("current_user_", subject)
}

/// The cache service over a key-value repository `R`.
#[derive(Clone)]
pub struct RedisService<R> {
    pub redis_repo: Arc<R>,
}

impl<R> RedisService<R> {
    /// A service over the repository.
    pub fn new(redis_repo: Arc<R>) -> (svc: Self)
        ensures
            svc.redis_repo == redis_repo,
    {
        Self { redis_repo }
    }

    /// The key under which the resolved user of a subject is cached.
    pub fn current_user_key(subject: &str) -> (key: String)
        ensures
            key@ == "current_user_"@ + subject@,
    {
        current_user_key(subject)
    }

    /// How long a cache entry lives, in seconds. Entries are not invalidated when
    /// roles change: a resolved user may be stale for this long.
    pub fn entry_ttl() -> (ttl: u64)
        ensures
            ttl == CACHE_TTL_SECONDS,
    {
        CACHE_TTL_SECONDS
    }
}

} // verus!
