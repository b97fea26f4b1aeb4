//! What requests carry in and what providers answer.

use vstd::prelude::*;
use vstd::string::*;
use validator::ValidateEmail;
use crate::entities::{opt_text, Role, RoleView, User, UserView};
use crate::error::AppError;
use crate::system::{new_id, unix_now};

verus! {

/// Whether `validator` takes a text for an email address: local part and domain as
/// the HTML5 specification of a valid address has them, with the length limits of
/// RFC 5321 and internationalized domains admitted.
pub uninterp spec fn is_email(text: Seq<char>) -> bool;

/// `validator::ValidateEmail::validate_email` on a text.
#[verifier::external_body]
fn email_is_valid(text: &str) -> (valid: bool)
    ensures
        valid == is_email(text@),
{
    text.validate_email()
}

/// The least number of characters in a new password.
pub const MIN_PASSWORD_LENGTH: usize = 8;

/// The largest number of characters in the name of a role.
pub const MAX_ROLE_NAME_LENGTH: usize = 255;

/// A registration with email and password.
#[derive(Clone, Debug)]
pub struct EmailRegisterRequest {
    pub email: String,
    pub password: String,
}

impl EmailRegisterRequest {
    /// A registration is valid where the address is an email address and the password
    /// has at least eight characters.
    pub open spec fn valid(&self) -> bool {
        is_email(self.email@) && self.password@.len() >= MIN_PASSWORD_LENGTH
    }

    /// Checks the request; the error names the first field that is wrong.
    pub fn validate(&self) -> (checked: Result<(), AppError>)
        ensures
            checked is Ok == self.valid(),
            checked matches Err(e) ==> e matches AppError::ValidationError(m) && m@ == (
            if !is_email(self.email@) {
                "email: not a valid email address"@
            } else {
                "password: Password must be at least 8 characters long"@
            }),
    {
        if !email_is_valid(self.email.as_str()) {
            return Err(AppError::ValidationError("email: not a valid email address".to_string()));
        }
        if self.password.as_str().unicode_len() < MIN_PASSWORD_LENGTH {
            return Err(
                AppError::ValidationError(
                    "password: Password must be at least 8 characters long".to_string(),
                ),
            );
        }
        Ok(())
    }
}

/// A login with email and password.
#[derive(Clone, Debug)]
pub struct EmailLoginRequest {
    pub email: String,
    pub password: String,
}

impl EmailLoginRequest {
    /// A login is valid where the address is an email address and a password is given.
    pub open spec fn valid(&self) -> bool {
        is_email(self.email@) && self.password@.len() >= 1
    }

    /// Checks the request; the error names the first field that is wrong.
    pub fn validate(&self) -> (checked: Result<(), AppError>)
        ensures
            checked is Ok == self.valid(),
            checked matches Err(e) ==> e matches AppError::ValidationError(m) && m@ == (
            if !is_email(self.email@) {
                "email: not a valid email address"@
            } else {
                "password: Password is required"@
            }),
    {
        if !email_is_valid(self.email.as_str()) {
            return Err(AppError::ValidationError("email: not a valid email address".to_string()));
        }
        if self.password.as_str().unicode_len() < 1 {
            return Err(AppError::ValidationError("password: Password is required".to_string()));
        }
        Ok(())
    }
}

/// The authorization code that the provider hands to the callback.
#[derive(Clone, Debug)]
pub struct Oauth2Request {
    pub code: String,
}

/// What the provider's identity token states.
#[derive(Clone, Debug)]
pub struct GoogleJwtClaims {
    pub iss: String,
    pub azp: String,
    pub aud: String,
    pub sub: String,
    pub hd: Option<String>,
    pub email: String,
    pub email_verified: bool,
    pub at_hash: Option<String>,
    pub name: String,
    pub picture: String,
    pub given_name: Option<String>,
    pub family_name: Option<String>,
    pub iat: u64,
    pub exp: u64,
}

/// The provider's answer to a token request.
#[derive(Clone, Debug)]
pub struct GoogleTokenResponse {
    pub id_token: String,
    pub access_token: String,
    pub token_type: String,
    pub expires_in: i32,
    pub refresh_token: String,
    pub scope: String,
}

/// The provider's answer where it refuses a request.
#[derive(Clone, Debug)]
pub struct GoogleTokenError {
    pub error: String,
    pub error_description: String,
}

/// The provider's profile of a user.
#[derive(Clone, Debug)]
pub struct GoogleUserResult {
    pub sub: String,
    pub name: String,
    pub email: String,
    pub picture: Option<String>,
    pub given_name: Option<String>,
    pub family_name: Option<String>,
    pub email_verified: bool,
}

impl GoogleUserResult {
    /// The account for this profile as plain values: the provider's name and picture,
    /// no password.
    pub open spec fn account(&self, id: Seq<char>, now: i64) -> UserView {
        UserView {
            id,
            email: self.email@,
            password_hash: None,
            fullname: Some(self.name@),
            avatar_url: opt_text(self.picture),
            is_active: true,
            created_at: now,
            updated_at: now,
            deleted_at: None,
        }
    }

    /// The account for this profile, with the given identifier, opened at `now`.
    pub fn to_user_at(&self, id: String, now: i64) -> (user: User)
        ensures
            user@ == self.account(id@, now),
    {
        User {
            id,
            fullname: Some(self.name.clone()),
            email: self.email.clone(),
            password_hash: None,
            avatar_url: self.picture.clone(),
            is_active: true,
            created_at: now,
            updated_at: now,
            deleted_at: None,
        }
    }

    /// The account for this profile, with a fresh identifier and the current time.
    pub fn to_user(&self) -> (user: User)
        ensures
            exists|id: Seq<char>, now: i64| user@ == self.account(id, now),
    {
        let user = self.to_user_at(new_id(), unix_now());
        assert(user@ == self.account(user.id@, user.created_at));
        user
    }
}

/// What creating or updating a role asks for.
#[derive(Clone, Debug)]
pub struct CreateOrUpdateRole {
    pub name: String,
    pub is_default: bool,
    pub permissions: Option<Vec<String>>,
}

impl CreateOrUpdateRole {
    /// A request is valid where the name has between 1 and 255 characters.
    pub open spec fn valid(&self) -> bool {
        1 <= self.name@.len() <= MAX_ROLE_NAME_LENGTH
    }

    /// Checks the request.
    pub fn validate(&self) -> (checked: Result<(), AppError>)
        ensures
            checked is Ok == self.valid(),
            checked matches Err(e) ==> e matches AppError::ValidationError(m) && m@
                == "name: Name is required"@,
    {
        let n = self.name.as_str().unicode_len();
        if n < 1 || n > MAX_ROLE_NAME_LENGTH {
            return Err(AppError::ValidationError("name: Name is required".to_string()));
        }
        Ok(())
    }

    /// The role that the request describes, with the given identifier, created at `now`.
    pub fn to_role_at(&self, id: String, now: i64) -> (role: Role)
        ensures
            role@ == (RoleView {
                id: id@,
                name: self.name@,
                is_default: self.is_default,
                created_at: now,
                updated_at: now,
                deleted_at: None,
            }),
    {
        Role::create(id, self.name.clone(), self.is_default, now)
    }

    /// The role that the request describes, with a fresh identifier and the current time.
    pub fn to_role(&self) -> (role: Role)
        ensures
            role@.name == self.name@,
            role@.is_default == self.is_default,
            role@.deleted_at is None,
    {
        self.to_role_at(new_id(), unix_now())
    }
}

/// A role with the permissions it grants, in wire form.
#[derive(Clone, Debug)]
pub struct RoleWithPermission {
    pub role: Role,
    pub permissions: Vec<String>,
}

} // verus!
