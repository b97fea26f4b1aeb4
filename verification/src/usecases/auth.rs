//! Registration, sign-in, sign-out and token refresh.

pub mod email_login;
pub mod email_register;
pub mod get_google_auth_url;
pub mod oauth2_login;
pub mod oauth2_logout;
pub mod refresh_oauth_token;
pub mod seed_super_admin;
