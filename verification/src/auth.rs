//! The authentication endpoints: what each answers, given what the service
//! gave back.

use vstd::prelude::*;
use crate::api::errors::ErrorResponse;
use crate::models::user::{AuthToken, Credential, TokenClaims};
use crate::services::auth_service::AuthServiceError;

verus! {

/// Errors of the authentication endpoints.
pub enum AuthError {
    InternalError,
    UserAlreadyExist,
    IncorrectCredential,
}

/// The HTTP status of an authentication error.
pub open spec fn auth_error_status(e: AuthError) -> u16 {
    match e {
        AuthError::InternalError => 500,
        AuthError::UserAlreadyExist => 400,
        AuthError::IncorrectCredential => 400,
    }
}

/// The reason an authentication error gives.
pub open spec fn auth_error_reason(e: AuthError) -> Seq<char> {
    match e {
        AuthError::InternalError => "Internal error"@,
        AuthError::UserAlreadyExist => "User already exists"@,
        AuthError::IncorrectCredential => "Incorect email or password"@,
    }
}

impl AuthError {
    pub fn status_code(&self) -> (r: u16)
        ensures
            r == auth_error_status(*self),
    {
        match self {
            AuthError::InternalError => 500,
            AuthError::UserAlreadyExist => 400,
            AuthError::IncorrectCredential => 400,
        }
    }

    /// The reply to an authentication error: its status, and the body that
    /// gives its reason.
    pub fn error_response(&self) -> (r: (u16, ErrorResponse))
        ensures
            r.0 == auth_error_status(*self),
            r.1.reason@ == auth_error_reason(*self),
    {
        let reason = match self {
            AuthError::InternalError => "Internal error",
            AuthError::UserAlreadyExist => "User already exists",
            AuthError::IncorrectCredential => "Incorect email or password",
        };
        (self.status_code(), ErrorResponse::new(reason))
    }
}

/// The answer to a registration: the new user's id; any refusal of the
/// service is answered as an internal error.
pub fn register_reply(outcome: Result<u128, AuthServiceError>) -> (r: Result<u128, AuthError>)
    ensures
        match outcome {
            Ok(id) => r == Ok::<u128, AuthError>(id),
            Err(_) => r == Err::<u128, AuthError>(AuthError::InternalError),
        },
{
    match outcome {
        Ok(id) => Ok(id),
        Err(_) => Err(AuthError::InternalError),
    }
}

/// The credential a login request carries: the user id of the basic
/// authentication header as the email, and its password, which must be
/// given.
pub fn login_credential(user_id: &str, password: Option<&str>) -> (r: Result<Credential, AuthError>)
    ensures
        match password {
            None => r == Err::<Credential, AuthError>(AuthError::IncorrectCredential),
            Some(p) => r matches Ok(c) && c.email@ == user_id@ && c.password@ == p@,
        },
{
    match password {
        None => Err(AuthError::IncorrectCredential),
        Some(p) => Ok(Credential { email: String::from_str(user_id), password: String::from_str(p) }),
    }
}

/// The answer to a login: the token as a bearer token; any refusal of the
/// service is answered as an incorrect credential.
pub fn login_reply(outcome: Result<String, AuthServiceError>) -> (r: Result<AuthToken, AuthError>)
    ensures
        match outcome {
            Ok(t) => r == Ok::<AuthToken, AuthError>(AuthToken { bearer_token: t }),
            Err(_) => r == Err::<AuthToken, AuthError>(AuthError::IncorrectCredential),
        },
{
    match outcome {
        Ok(t) => Ok(AuthToken { bearer_token: t }),
        Err(_) => Err(AuthError::IncorrectCredential),
    }
}

/// What the bearer middleware does with a request.
pub enum BearerDecision {
    /// Let the request through, carrying these claims.
    Admit(TokenClaims),
    /// Refuse the request with an authentication challenge.
    Challenge,
}

/// The middleware's decision, given what the service made of the token.
pub fn bearer_decision(outcome: Result<TokenClaims, AuthServiceError>) -> (r: BearerDecision)
    ensures
        match outcome {
            Ok(c) => r == BearerDecision::Admit(c),
            Err(_) => r is Challenge,
        },
{
    match outcome {
        Ok(c) => BearerDecision::Admit(c),
        Err(_) => BearerDecision::Challenge,
    }
}

} // verus!
