//! Names and limits fixed by the protocol and by this service.

use vstd::prelude::*;

verus! {

/// Provider tag of Google sign-in.
pub const GOOGLE_PROVIDER: &'static str = "google";

/// Provider tag of email-and-password sign-in.
pub const EMAIL_PROVIDER: &'static str = "email";

/// Name of the reserved role that is granted every permission.
pub const SUPER_ADMIN_ROLE: &'static str = "super_admin";

/// The object that stands for role administration in the policy.
pub const ROLE_MANAGEMENT: &'static str = "role-management";

/// The action of reading.
pub const READ: &'static str = "read";

/// The action of writing.
pub const WRITE: &'static str = "write";

/// Where an authorization code is exchanged for tokens.
pub const GOOGLE_TOKEN_ENDPOINT: &'static str = "https://oauth2.googleapis.com/token";

/// Where a user is sent to grant access.
pub const GOOGLE_OAUTH_ENDPOINT: &'static str = "https://accounts.google.com/o/oauth2/v2/auth";

/// Where the provider publishes its signing keys.
pub const GOOGLE_JWKS_ENDPOINT: &'static str = "https://www.googleapis.com/oauth2/v3/certs";

/// The issuer that the provider's identity tokens must name.
pub const GOOGLE_ISSUER: &'static str = "https://accounts.google.com";

/// The issuer written into tokens minted here.
pub const TOKEN_ISSUER: &'static str = "API_NAME";

/// Lifetime of an access token, in hours.
pub const ACCESS_TOKEN_HOURS: i64 = 1;

/// Lifetime of a refresh token, in hours.
pub const REFRESH_TOKEN_HOURS: i64 = 168;

/// Lifetime of a session, in seconds: seven days.
pub const SESSION_TTL_SECONDS: i64 = 604800;

/// Lifetime of a cache entry, in seconds: one hour.
pub const CACHE_TTL_SECONDS: u64 = 3600;

/// Lifetime of the cached provider keys, in seconds: one hour.
pub const JWKS_TTL_SECONDS: i64 = 3600;

} // verus!
