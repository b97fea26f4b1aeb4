//! Settings the service is started with.

use vstd::prelude::*;

verus! {

/// Everything read from the environment at start-up.
#[derive(Clone, Debug)]
pub struct AppConfig {
    pub app_name: String,
    pub app_port: u16,
    pub app_env: String,
    pub db_url: String,
    pub redis_url: String,
    pub jwt_secret: String,
    pub allowed_origins: String,
    pub google_client_id: String,
    pub google_client_secret: String,
    pub google_redirect_url: String,
    pub super_key: String,
}

} // verus!
