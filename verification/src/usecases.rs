//! The use cases. Each begins with `execute`, which names the first thing to do, and
//! goes on with `resume` after that has been done, until it ends with its result.

pub mod auth;
pub mod role;
