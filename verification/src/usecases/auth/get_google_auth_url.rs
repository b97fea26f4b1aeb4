//! The address that starts sign-in with the provider.

use vstd::prelude::*;
use vstd::string::*;
use crate::constants::{GOOGLE_OAUTH_ENDPOINT, GOOGLE_PROVIDER};
use crate::error::AppError;
use crate::text::{join2, join3, same_text};

verus! {

/// The address that starts sign-in with the provider.
#[derive(Clone)]
pub struct GetGoogleAuthUrl {
    pub client_id: String,
    pub redirect_uri: String,
}

impl GetGoogleAuthUrl {
    /// The use case for a client and its redirect address.
    pub fn new(client_id: String, redirect_uri: String) -> (uc: Self)
        ensures
            uc.client_id == client_id,
            uc.redirect_uri == redirect_uri,
    {
        Self { client_id, redirect_uri }
    }

    /// The address as text: it asks for the profile and the email address of the
    /// user, for consent each time, and for offline access, so that a refresh token
    /// is issued.
    pub open spec fn url(&self) -> Seq<char> {
        GOOGLE_OAUTH_ENDPOINT@ + "?client_id="@ + self.client_id@ + "&redirect_uri="@
            + self.redirect_uri@
            + "&scope=https://www.googleapis.com/auth/userinfo.profile https://www.googleapis.com/auth/userinfo.email&prompt=consent&response_type=code&access_type=offline"@
    }

    /// The address for `provider`: only Google has one.
    pub fn execute_for(&self, provider: &str) -> (url: Result<String, AppError>)
        ensures
            provider@ == GOOGLE_PROVIDER@ ==> (url matches Ok(u) && u@ == self.url()),
            provider@ != GOOGLE_PROVIDER@ ==> url matches Err(AppError::Unauthorized),
    {
        if same_text(provider, GOOGLE_PROVIDER) {
            self.execute()
        } else {
            Err(AppError::Unauthorized)
        }
    }

    /// Builds the address.
    pub fn execute(&self) -> (url: Result<String, AppError>)
        ensures
            url matches Ok(u) && u@ == self.url(),
    {
        let head = join3(GOOGLE_OAUTH_ENDPOINT, "?client_id=", self.client_id.as_str());
        let mid = join3(head.as_str(), "&redirect_uri=", self.redirect_uri.as_str());
        Ok(
            join2(
                mid.as_str(),
                "&scope=https://www.googleapis.com/auth/userinfo.profile https://www.googleapis.com/auth/userinfo.email&prompt=consent&response_type=code&access_type=offline",
            ),
        )
    }
}

} // verus!
