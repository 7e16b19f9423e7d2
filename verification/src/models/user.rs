//! Users: what registration and login carry, and the claims of a token.

use vstd::prelude::*;

verus! {

/// What a client sends to register.
pub struct Registration {
    pub name: String,
    pub email: String,
    pub password: String,
}

/// An email and a password, as given at login.
pub struct Credential {
    pub email: String,
    pub password: String,
}

/// A user to be stored: the password only as its hash.
pub struct UserInfo {
    pub name: String,
    pub email: String,
    pub passhash: String,
}

/// The bearer token handed out at login.
pub struct AuthToken {
    pub bearer_token: String,
}

/// What login needs of a stored user.
pub struct AuthUser {
    pub id: u128,
    pub passhash: String,
}

/// The claims a token carries: whose it is and when it expires, in seconds
/// since the epoch.
pub struct TokenClaims {
    pub id: u128,
    pub exp: usize,
}

impl Clone for TokenClaims {
    fn clone(&self) -> (r: Self)
        ensures
            r == *self,
    {
        TokenClaims { id: self.id, exp: self.exp }
    }
}

/// A user's identity alone.
pub struct Claims {
    pub id: u128,
}

} // verus!
