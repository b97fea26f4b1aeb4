//! The error taxonomy and how each error is surfaced to a client.

use vstd::prelude::*;
use vstd::string::*;
use crate::text::join2;

verus! {

/// What the persistence layer reported. Only "no such row" is told apart from the rest.
#[derive(Debug)]
pub enum DbError {
    /// A query that expected a row found none.
    RowNotFound,
    /// Any other failure, with the store's own description.
    Other(String),
}

impl DbError {
    /// The text shown for this failure.
    pub open spec fn text(&self) -> Seq<char> {
        match self {
            DbError::RowNotFound => "no rows returned by a query that expected to return at least one row"@,
            DbError::Other(m) => m@,
        }
    }

    /// Renders the failure as text.
    pub fn to_string(&self) -> (s: String)
        ensures
            s@ == self.text(),
    {
        match self {
            DbError::RowNotFound => "no rows returned by a query that expected to return at least one row".to_string(),
            DbError::Other(m) => m.clone(),
        }
    }
}

/// The body of an error response.
#[derive(Debug)]
pub struct ErrorResponse {
    pub error_code: String,
    pub message: String,
    pub success: bool,
}

/// Every way a request can fail.
#[derive(Debug)]
pub enum AppError {
    SqlxError(DbError),
    ValidationError(String),
    RedisError(String),
    RunRedisError(String),
    FailedToSetHeader(String),
    Unauthorized,
    UnauthorizedError(String),
    Forbidden,
    SerdeJsonError(String),
    JWTError(String),
    ProcessError(String),
    CasbinError(String),
    TokioFsError(String),
    NotFound(String),
    ResourceNotFound,
    ResourceExist(String),
    InvalidOauthProvider,
    HttpClientError(String),
    Oauth2FailedToAuthorize,
    Oauth2ProviderError(String),
    InvalidToken,
    RefreshTokenExpired,
    UserEmailAlreadyExist,
    UserNotExist(String),
}

impl AppError {
    /// The one-line description of the error.
    pub open spec fn text(&self) -> Seq<char> {
        match self {
            AppError::SqlxError(e) => "Database Error: "@ + e.text(),
            AppError::ValidationError(m) => "[Validation error] "@ + m@,
            AppError::RedisError(m) => "Redis Error: "@ + m@,
            AppError::RunRedisError(m) => "Redis Connection Error: "@ + m@,
            AppError::FailedToSetHeader(m) => "Set-Header Error: "@ + m@,
            AppError::Unauthorized => "Unauthorized"@,
            AppError::UnauthorizedError(m) => "Unauthorized Error: "@ + m@,
            AppError::Forbidden => "Forbidden"@,
            AppError::SerdeJsonError(m) => "Json Error: "@ + m@,
            AppError::JWTError(m) => "JWT Error: "@ + m@,
            AppError::ProcessError(m) => "Process error: "@ + m@,
            AppError::CasbinError(m) => "Casbin Error: "@ + m@,
            AppError::TokioFsError(m) => "IO Error: "@ + m@,
            AppError::NotFound(m) => m@,
            AppError::ResourceNotFound => "Resource Not Found"@,
            AppError::ResourceExist(m) => "Resource Exist: "@ + m@,
            AppError::InvalidOauthProvider => "Invalid Oauth Provider"@,
            AppError::HttpClientError(m) => "HTTP Client Error: "@ + m@,
            AppError::Oauth2FailedToAuthorize => "Oauth2 Failed to Authorize"@,
            AppError::Oauth2ProviderError(m) => "Oauth2 Provider Error: "@ + m@,
            AppError::InvalidToken => "Invalid Auth Token"@,
            AppError::RefreshTokenExpired => "Refresh Token Expired"@,
            AppError::UserEmailAlreadyExist => "User Email Already Exist"@,
            AppError::UserNotExist(m) => "User with given email "@ + m@ + " not exist"@,
        }
    }

    /// The HTTP status under which the error is surfaced: 400 for a request that is
    /// not valid, 401 for one that is not signed in or whose credentials are wrong,
    /// 403 for one that its role does not allow, 404 for what is not there, 409 and
    /// 422 for what is there already, 502 for a provider that cannot be reached or
    /// refuses, and
    /// 500 for every other failure.
    pub open spec fn status(&self) -> u16 {
        match self {
            AppError::ProcessError(_) => 500,
            AppError::ValidationError(_) => 400,
            AppError::Unauthorized => 401,
            AppError::JWTError(_) => 500,
            AppError::SqlxError(DbError::RowNotFound) => 404,
            AppError::SqlxError(DbError::Other(_)) => 500,
            AppError::ResourceNotFound => 404,
            AppError::ResourceExist(_) => 409,
            AppError::CasbinError(_) => 500,
            AppError::InvalidOauthProvider => 400,
            AppError::Oauth2FailedToAuthorize => 502,
            AppError::Oauth2ProviderError(_) => 502,
            AppError::UnauthorizedError(_) => 401,
            AppError::RefreshTokenExpired => 401,
            AppError::Forbidden => 403,
            AppError::UserEmailAlreadyExist => 422,
            AppError::UserNotExist(_) => 404,
            _ => 500,
        }
    }

    /// The machine-readable code in the response body.
    pub open spec fn code(&self) -> Seq<char> {
        match self {
            AppError::ProcessError(_) => "process_error"@,
            AppError::ValidationError(_) => "validation_error"@,
            AppError::Unauthorized => "unauthorized"@,
            AppError::JWTError(_) => "jwt_error"@,
            AppError::SqlxError(DbError::RowNotFound) => "resource_not_found"@,
            AppError::SqlxError(DbError::Other(_)) => "database_error"@,
            AppError::ResourceNotFound => "resource_not_found"@,
            AppError::ResourceExist(_) => "resource_exist"@,
            AppError::CasbinError(_) => "casbin_error"@,
            AppError::InvalidOauthProvider => "invalid_oauth_provider"@,
            AppError::Oauth2FailedToAuthorize => "oauth2_failed_to_authorize"@,
            AppError::Oauth2ProviderError(_) => "oauth2_provider_error"@,
            AppError::UnauthorizedError(_) => "unauthorized"@,
            AppError::RefreshTokenExpired => "refresh_token_expired"@,
            AppError::Forbidden => "forbidden"@,
            AppError::UserEmailAlreadyExist => "user_email_already_exist"@,
            AppError::UserNotExist(_) => "user_not_exist"@,
            _ => "internal_server_error"@,
        }
    }

    /// The human-readable message in the response body.
    pub open spec fn message(&self) -> Seq<char> {
        match self {
            AppError::ProcessError(m) => "failed to process request: "@ + m@,
            AppError::ValidationError(_) => "failed to validate your request, please check & try again"@,
            AppError::Unauthorized => "Unauthorized"@,
            AppError::JWTError(_) => "failed to validate/make token"@,
            AppError::SqlxError(DbError::RowNotFound) => "Resource not found!"@,
            AppError::SqlxError(DbError::Other(_)) => "A database error occurred."@,
            AppError::ResourceNotFound => "The requested resource was not found."@,
            AppError::ResourceExist(m) => "Resource already exist: "@ + m@,
            AppError::CasbinError(m) => "Casbin error: "@ + m@,
            AppError::InvalidOauthProvider => "Invalid oauth provider"@,
            AppError::Oauth2FailedToAuthorize => "Oauth2 failed to authorize"@,
            AppError::Oauth2ProviderError(m) => "Oauth2 provider refused: "@ + m@,
            AppError::UnauthorizedError(m) => "Unauthorized: "@ + m@,
            AppError::RefreshTokenExpired => "Refresh token expired, please login again"@,
            AppError::Forbidden => "You are not allowed to access this resource"@,
            AppError::UserEmailAlreadyExist => "User with given email already exist"@,
            AppError::UserNotExist(m) => "User with given email "@ + m@ + " not exist"@,
            _ => "An internal server error occurred."@,
        }
    }

    /// Renders the one-line description.
    pub fn to_string(&self) -> (s: String)
        ensures
            s@ == self.text(),
    {
        match self {
            AppError::SqlxError(e) => {
                let inner = e.to_string();
                join2("Database Error: ", inner.as_str())
            },
            AppError::ValidationError(m) => join2("[Validation error] ", m.as_str()),
            AppError::RedisError(m) => join2("Redis Error: ", m.as_str()),
            AppError::RunRedisError(m) => join2("Redis Connection Error: ", m.as_str()),
            AppError::FailedToSetHeader(m) => join2("Set-Header Error: ", m.as_str()),
            AppError::Unauthorized => "Unauthorized".to_string(),
            AppError::UnauthorizedError(m) => join2("Unauthorized Error: ", m.as_str()),
            AppError::Forbidden => "Forbidden".to_string(),
            AppError::SerdeJsonError(m) => join2("Json Error: ", m.as_str()),
            AppError::JWTError(m) => join2("JWT Error: ", m.as_str()),
            AppError::ProcessError(m) => join2("Process error: ", m.as_str()),
            AppError::CasbinError(m) => join2("Casbin Error: ", m.as_str()),
            AppError::TokioFsError(m) => join2("IO Error: ", m.as_str()),
            AppError::NotFound(m) => m.clone(),
            AppError::ResourceNotFound => "Resource Not Found".to_string(),
            AppError::ResourceExist(m) => join2("Resource Exist: ", m.as_str()),
            AppError::InvalidOauthProvider => "Invalid Oauth Provider".to_string(),
            AppError::HttpClientError(m) => join2("HTTP Client Error: ", m.as_str()),
            AppError::Oauth2FailedToAuthorize => "Oauth2 Failed to Authorize".to_string(),
            AppError::Oauth2ProviderError(m) => join2("Oauth2 Provider Error: ", m.as_str()),
            AppError::InvalidToken => "Invalid Auth Token".to_string(),
            AppError::RefreshTokenExpired => "Refresh Token Expired".to_string(),
            AppError::UserEmailAlreadyExist => "User Email Already Exist".to_string(),
            AppError::UserNotExist(m) => join2("User with given email ", m.as_str()).concat(" not exist"),
        }
    }

    /// The status and body under which the error is surfaced: `success` is always
    /// `false`, and status, code and message follow the kind of error.
    pub fn into_response(self) -> (out: (u16, ErrorResponse))
        ensures
            out.0 == self.status(),
            out.1.error_code@ == self.code(),
            out.1.message@ == self.message(),
            !out.1.success,
    {
        let (status, error_code, message): (u16, String, String) = match &self {
            AppError::ProcessError(value) => (
                500,
                "process_error".to_string(),
                join2("failed to process request: ", value.as_str()),
            ),
            AppError::ValidationError(_) => (
                400,
                "validation_error".to_string(),
                "failed to validate your request, please check & try again".to_string(),
            ),
            AppError::Unauthorized => (401, "unauthorized".to_string(), "Unauthorized".to_string()),
            AppError::JWTError(_) => (
                500,
                "jwt_error".to_string(),
                "failed to validate/make token".to_string(),
            ),
            AppError::SqlxError(err) => match err {
                DbError::RowNotFound => (
                    404,
                    "resource_not_found".to_string(),
                    "Resource not found!".to_string(),
                ),
                DbError::Other(_) => (
                    500,
                    "database_error".to_string(),
                    "A database error occurred.".to_string(),
                ),
            },
            AppError::ResourceNotFound => (
                404,
                "resource_not_found".to_string(),
                "The requested resource was not found.".to_string(),
            ),
            AppError::ResourceExist(value) => (
                409,
                "resource_exist".to_string(),
                join2("Resource already exist: ", value.as_str()),
            ),
            AppError::CasbinError(err) => (
                500,
                "casbin_error".to_string(),
                join2("Casbin error: ", err.as_str()),
            ),
            AppError::InvalidOauthProvider => (
                400,
                "invalid_oauth_provider".to_string(),
                "Invalid oauth provider".to_string(),
            ),
            AppError::Oauth2FailedToAuthorize => (
                502,
                "oauth2_failed_to_authorize".to_string(),
                "Oauth2 failed to authorize".to_string(),
            ),
            AppError::Oauth2ProviderError(code) => (
                502,
                "oauth2_provider_error".to_string(),
                join2("Oauth2 provider refused: ", code.as_str()),
            ),
            AppError::UnauthorizedError(value) => (
                401,
                "unauthorized".to_string(),
                join2("Unauthorized: ", value.as_str()),
            ),
            AppError::RefreshTokenExpired => (
                401,
                "refresh_token_expired".to_string(),
                "Refresh token expired, please login again".to_string(),
            ),
            AppError::Forbidden => (
                403,
                "forbidden".to_string(),
                "You are not allowed to access this resource".to_string(),
            ),
            AppError::UserEmailAlreadyExist => (
                422,
                "user_email_already_exist".to_string(),
                "User with given email already exist".to_string(),
            ),
            AppError::UserNotExist(value) => (
                404,
                "user_not_exist".to_string(),
                join2("User with given email ", value.as_str()).concat(" not exist"),
            ),
            _ => (
                500,
                "internal_server_error".to_string(),
                "An internal server error occurred.".to_string(),
            ),
        };
        (status, ErrorResponse { error_code, message, success: false })
    }

    /// Tells whether the error is the persistence layer's "no such row".
    pub fn is_row_not_found(&self) -> (b: bool)
        ensures
            b == (*self matches AppError::SqlxError(DbError::RowNotFound)),
    {
        match self {
            AppError::SqlxError(DbError::RowNotFound) => true,
            _ => false,
        }
    }

    /// The error rewrapped as a processing failure that carries its description.
    pub fn as_process_error(&self) -> (e: AppError)
        ensures
            e matches AppError::ProcessError(m) && m@ == self.text(),
    {
        AppError::ProcessError(self.to_string())
    }

    /// The error rewrapped as an authorization failure that carries its description.
    pub fn as_unauthorized(&self) -> (e: AppError)
        ensures
            e matches AppError::UnauthorizedError(m) && m@ == self.text(),
    {
        AppError::UnauthorizedError(self.to_string())
    }
}

} // verus!
