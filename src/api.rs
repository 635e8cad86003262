//! Bodies of the requests and responses of the HTTP interface.
use vstd::prelude::*;
use vstd::string::*;

verus! {

/// The query of an OAuth callback.
#[derive(Debug, Clone, PartialEq, Eq)]
pub struct OAuthCallbackParams {
    pub code: String,
}

/// The query of the Kakao callback.
#[derive(Debug, Clone, PartialEq, Eq)]
pub struct AuthCallbackParams {
    pub code: String,
}

/// A request for an email code.
#[derive(Debug, Clone, PartialEq, Eq)]
pub struct ValidateEmailRequest {
    pub email: String,
}

/// A submitted email code.
#[derive(Debug, Clone, PartialEq, Eq)]
pub struct VerifyEmailCodeRequest {
    pub email: String,
    pub code: String,
}

/// The token handed out at login.
#[derive(Debug, Clone, PartialEq, Eq)]
pub struct OAuthLoginResponse {
    pub token: String,
    pub token_type: String,
}

impl OAuthLoginResponse {
    /// A bearer token response.
    pub fn bearer(token: String) -> (r: OAuthLoginResponse)
        ensures
            r.token == token,
            r.token_type@ == "Bearer"@,
    {
        OAuthLoginResponse { token, token_type: String::from_str("Bearer") }
    }
}

} // verus!
