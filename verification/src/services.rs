//! Services that the use cases share.

pub mod oauth_svc;
pub mod redis_svc;
