//! Login with basic authentication against the user table: the flow of the
//! `/auth` endpoint, whose tokens last one hour.

use vstd::prelude::*;
use crate::models::user::{AuthToken, AuthUser, TokenClaims};
use crate::services::auth_service::MAX_TIMESTAMP;

verus! {

/// How long a token issued by this endpoint stays valid: 60 minutes, in
/// seconds.
pub const BASIC_TOKEN_LIFETIME_SECS: i64 = 3600;

/// The endpoint's answer.
pub enum BasicAuthReply {
    /// `401 Unauthorized`, with a message.
    Unauthorized(String),
    /// `200 OK`, with the token.
    Token(AuthToken),
}

/// Where a basic-authentication login stands.
pub enum BasicAuthStage {
    FetchingUser,
    Verifying,
    Encoding,
    Finished,
}

/// The outcome of a piece of outside work during the login.
pub enum BasicAuthEvent {
    /// The stored user with the email, if any.
    UserFetched(Option<AuthUser>),
    /// Whether the password matches the stored hash, and the clock, in
    /// seconds since the epoch.
    PasswordVerified(bool, i64),
    /// The signed token.
    TokenEncoded(String),
}

/// What the login asks for next.
pub enum BasicAuthAction {
    FetchUser(String),
    /// Check the password against the stored hash.
    VerifyPassword(String, String),
    EncodeToken(TokenClaims),
    Respond(BasicAuthReply),
}

/// A basic-authentication login in progress.
pub struct BasicAuthFlow {
    pub password: String,
    pub stage: BasicAuthStage,
    pub user_id: u128,
}

/// Whether `event` answers the work that `stage` waits for.
pub open spec fn basic_auth_event_fits(stage: BasicAuthStage, event: BasicAuthEvent) -> bool {
    match stage {
        BasicAuthStage::FetchingUser => event is UserFetched,
        BasicAuthStage::Verifying => match event {
            BasicAuthEvent::PasswordVerified(true, now) => now <= MAX_TIMESTAMP
                - BASIC_TOKEN_LIFETIME_SECS,
            BasicAuthEvent::PasswordVerified(false, _) => true,
            _ => false,
        },
        BasicAuthStage::Encoding => event is TokenEncoded,
        BasicAuthStage::Finished => false,
    }
}

/// The message for a refused email or password.
pub open spec fn wrong_credentials_text() -> Seq<char> {
    "Incorrect password or email"@
}

/// The flow of `basic_auth`.
pub fn basic_auth(user_id: &str, password: Option<&str>) -> (r: (BasicAuthFlow, BasicAuthAction))
    ensures
        match password {
            None => r.0.stage is Finished && (r.1 matches BasicAuthAction::Respond(
                BasicAuthReply::Unauthorized(m),
            ) && m@ == "Must provide password"@),
            Some(p) => r.0.stage is FetchingUser && r.0.password@ == p@ && (r.1 matches BasicAuthAction::FetchUser(e)
                && e@ == user_id@),
        },
{
    match password {
        None => (
            BasicAuthFlow { password: String::new(), stage: BasicAuthStage::Finished, user_id: 0 },
            BasicAuthAction::Respond(
                BasicAuthReply::Unauthorized(String::from_str("Must provide password")),
            ),
        ),
        Some(p) => (
            BasicAuthFlow {
                password: String::from_str(p),
                stage: BasicAuthStage::FetchingUser,
                user_id: 0,
            },
            BasicAuthAction::FetchUser(String::from_str(user_id)),
        ),
    }
}

impl BasicAuthFlow {
    /// Takes the outcome of the work asked for and names the next step: an
    /// unknown email or a wrong password is refused, otherwise a token for
    /// the user, expiring an hour after the clock reading, is signed and
    /// handed out.
    pub fn step(&mut self, event: BasicAuthEvent) -> (r: BasicAuthAction)
        requires
            basic_auth_event_fits(old(self).stage, event),
        ensures
            final(self).password == old(self).password,
            match event {
                BasicAuthEvent::UserFetched(None) => final(self).stage is Finished
                    && (r matches BasicAuthAction::Respond(BasicAuthReply::Unauthorized(m)) && m@
                    == wrong_credentials_text()),
                BasicAuthEvent::UserFetched(Some(u)) => final(self).stage is Verifying
                    && final(self).user_id == u.id && r == BasicAuthAction::VerifyPassword(
                    u.passhash,
                    old(self).password,
                ),
                BasicAuthEvent::PasswordVerified(false, _) => final(self).stage is Finished
                    && (r matches BasicAuthAction::Respond(BasicAuthReply::Unauthorized(m)) && m@
                    == wrong_credentials_text()),
                BasicAuthEvent::PasswordVerified(true, now) => final(self).stage is Encoding && r
                    == BasicAuthAction::EncodeToken(
                    TokenClaims {
                        id: old(self).user_id,
                        exp: (now + BASIC_TOKEN_LIFETIME_SECS) as usize,
                    },
                ),
                BasicAuthEvent::TokenEncoded(t) => final(self).stage is Finished && r
                    == BasicAuthAction::Respond(BasicAuthReply::Token(AuthToken { bearer_token: t })),
            },
    {
        match event {
            BasicAuthEvent::UserFetched(None) => {
                self.stage = BasicAuthStage::Finished;
                BasicAuthAction::Respond(
                    BasicAuthReply::Unauthorized(String::from_str("Incorrect password or email")),
                )
            },
            BasicAuthEvent::UserFetched(Some(u)) => {
                self.stage = BasicAuthStage::Verifying;
                self.user_id = u.id;
                BasicAuthAction::VerifyPassword(u.passhash, self.password.clone())
            },
            BasicAuthEvent::PasswordVerified(valid, now) => {
                if valid {
                    self.stage = BasicAuthStage::Encoding;
                    let exp = now + BASIC_TOKEN_LIFETIME_SECS;
                    BasicAuthAction::EncodeToken(TokenClaims { id: self.user_id, exp: exp as usize })
                } else {
                    self.stage = BasicAuthStage::Finished;
                    BasicAuthAction::Respond(
                        BasicAuthReply::Unauthorized(
                            String::from_str("Incorrect password or email"),
                        ),
                    )
                }
            },
            BasicAuthEvent::TokenEncoded(t) => {
                self.stage = BasicAuthStage::Finished;
                BasicAuthAction::Respond(BasicAuthReply::Token(AuthToken { bearer_token: t }))
            },
        }
    }
}

} // verus!
