//! The authentication service's decisions. Registration and login each
//! alternate outside work (the user store, password hashing, the clock,
//! token encoding) with decisions; each is a flow that takes the outcome of
//! one piece of outside work and names the next.

use vstd::prelude::*;
use crate::models::user::{AuthUser, Credential, Registration, TokenClaims, UserInfo};

verus! {

/// Why the authentication service refuses a request.
pub enum AuthServiceError {
    /// The user store failed, with its message.
    InternalError(String),
    /// A user with this email already exists.
    UserAlreadyExist(String),
    IncorrectPassword,
    EncodeToken,
    DecodeToken,
}

/// How long a token issued at login stays valid: 600 minutes, in seconds.
pub const TOKEN_LIFETIME_SECS: i64 = 36000;

/// The last second the clock library can represent: the end of 31 December
/// of the year 262142, in seconds since the epoch.
pub const MAX_TIMESTAMP: i64 = 8210266876799;

/// Where a registration stands.
pub enum RegisterStage {
    CheckingExistence,
    Hashing,
    Creating,
    Finished,
}

/// The outcome of a piece of outside work during registration.
pub enum RegisterEvent {
    /// Whether a user with the email exists, or the store's error message.
    ExistenceChecked(Result<bool, String>),
    /// The hash of the password.
    PasswordHashed(String),
    /// The new user's identifier, or the store's error message.
    UserCreated(Result<u128, String>),
}

/// What registration asks for next.
pub enum RegisterAction {
    CheckExistence(Credential),
    HashPassword(String),
    CreateUser(UserInfo),
    Finish(Result<u128, AuthServiceError>),
}

/// A registration in progress.
pub struct RegisterFlow {
    pub registration: Registration,
    pub stage: RegisterStage,
}

/// Whether `event` answers the work that `stage` waits for.
pub open spec fn register_event_fits(stage: RegisterStage, event: RegisterEvent) -> bool {
    match stage {
        RegisterStage::CheckingExistence => event is ExistenceChecked,
        RegisterStage::Hashing => event is PasswordHashed,
        RegisterStage::Creating => event is UserCreated,
        RegisterStage::Finished => false,
    }
}

/// The stage a registration moves to on `event`.
pub open spec fn register_next_stage(event: RegisterEvent) -> RegisterStage {
    match event {
        RegisterEvent::ExistenceChecked(Ok(false)) => RegisterStage::Hashing,
        RegisterEvent::PasswordHashed(_) => RegisterStage::Creating,
        _ => RegisterStage::Finished,
    }
}

/// What registering `registration` asks for next on `event`: a store error
/// ends it with that error; a taken email ends it with `UserAlreadyExist`; a
/// free email leads to hashing the password; the hash leads to creating the
/// user with it; the created user's id ends the registration.
pub open spec fn register_action(registration: Registration, event: RegisterEvent) -> RegisterAction {
    match event {
        RegisterEvent::ExistenceChecked(Err(m)) => RegisterAction::Finish(
            Err(AuthServiceError::InternalError(m)),
        ),
        RegisterEvent::ExistenceChecked(Ok(true)) => RegisterAction::Finish(
            Err(AuthServiceError::UserAlreadyExist(registration.email)),
        ),
        RegisterEvent::ExistenceChecked(Ok(false)) => RegisterAction::HashPassword(
            registration.password,
        ),
        RegisterEvent::PasswordHashed(h) => RegisterAction::CreateUser(
            UserInfo { name: registration.name, email: registration.email, passhash: h },
        ),
        RegisterEvent::UserCreated(Ok(id)) => RegisterAction::Finish(Ok(id)),
        RegisterEvent::UserCreated(Err(m)) => RegisterAction::Finish(
            Err(AuthServiceError::InternalError(m)),
        ),
    }
}

impl RegisterFlow {
    /// Starts registering: first ask whether the email is taken.
    pub fn start(registration: Registration) -> (r: (RegisterFlow, RegisterAction))
        ensures
            r.0.registration == registration,
            r.0.stage is CheckingExistence,
            r.1 == RegisterAction::CheckExistence(
                Credential { email: registration.email, password: registration.password },
            ),
    {
        let cred = Credential {
            email: registration.email.clone(),
            password: registration.password.clone(),
        };
        (RegisterFlow { registration, stage: RegisterStage::CheckingExistence }, RegisterAction::CheckExistence(cred))
    }

    /// Takes the outcome of the work asked for and names the next step. A
    /// store error ends the registration with it; a taken email ends it with
    /// `UserAlreadyExist`; otherwise the password is hashed and the user is
    /// created with the hash, and the registration ends with the new id.
    pub fn step(&mut self, event: RegisterEvent) -> (r: RegisterAction)
        requires
            register_event_fits(old(self).stage, event),
        ensures
            final(self).registration == old(self).registration,
            final(self).stage == register_next_stage(event),
            r == register_action(old(self).registration, event),
    {
        match event {
            RegisterEvent::ExistenceChecked(Err(m)) => {
                self.stage = RegisterStage::Finished;
                RegisterAction::Finish(Err(AuthServiceError::InternalError(m)))
            },
            RegisterEvent::ExistenceChecked(Ok(exists)) => {
                if exists {
                    self.stage = RegisterStage::Finished;
                    RegisterAction::Finish(
                        Err(AuthServiceError::UserAlreadyExist(self.registration.email.clone())),
                    )
                } else {
                    self.stage = RegisterStage::Hashing;
                    RegisterAction::HashPassword(self.registration.password.clone())
                }
            },
            RegisterEvent::PasswordHashed(h) => {
                self.stage = RegisterStage::Creating;
                RegisterAction::CreateUser(
                    UserInfo {
                        name: self.registration.name.clone(),
                        email: self.registration.email.clone(),
                        passhash: h,
                    },
                )
            },
            RegisterEvent::UserCreated(Ok(id)) => {
                self.stage = RegisterStage::Finished;
                RegisterAction::Finish(Ok(id))
            },
            RegisterEvent::UserCreated(Err(m)) => {
                self.stage = RegisterStage::Finished;
                RegisterAction::Finish(Err(AuthServiceError::InternalError(m)))
            },
        }
    }
}

/// Where a login stands.
pub enum LoginStage {
    FetchingAuthInfo,
    Verifying,
    Encoding,
    Finished,
}

/// The outcome of a piece of outside work during login.
pub enum LoginEvent {
    /// The stored user with the email, or the store's error message.
    AuthInfoFetched(Result<AuthUser, String>),
    /// Whether the password matches the stored hash (`Err` when the hash
    /// cannot be checked), and the clock, in seconds since the epoch.
    PasswordVerified(Result<bool, ()>, i64),
    /// The signed token, or `Err` when signing failed.
    TokenEncoded(Result<String, ()>),
}

/// What login asks for next.
pub enum LoginAction {
    FetchAuthInfo(String),
    /// Check the password against the stored hash.
    VerifyPassword(String, String),
    EncodeToken(TokenClaims),
    Finish(Result<String, AuthServiceError>),
}

/// A login in progress.
pub struct LoginFlow {
    pub credential: Credential,
    pub stage: LoginStage,
    pub user_id: u128,
}

/// Whether `event` answers the work that `stage` waits for; a verified
/// password comes with a clock reading from which the token's expiry can be
/// represented.
pub open spec fn login_event_fits(stage: LoginStage, event: LoginEvent) -> bool {
    match stage {
        LoginStage::FetchingAuthInfo => event is AuthInfoFetched,
        LoginStage::Verifying => match event {
            LoginEvent::PasswordVerified(Ok(true), now) => now <= MAX_TIMESTAMP - TOKEN_LIFETIME_SECS,
            LoginEvent::PasswordVerified(_, _) => true,
            _ => false,
        },
        LoginStage::Encoding => event is TokenEncoded,
        LoginStage::Finished => false,
    }
}

/// The claims of a token issued at `now` to the user `id`: it expires
/// `TOKEN_LIFETIME_SECS` later.
pub open spec fn login_claims(id: u128, now: i64) -> TokenClaims {
    TokenClaims { id, exp: (now + TOKEN_LIFETIME_SECS) as usize }
}

/// The stage a login moves to on `event`.
pub open spec fn login_next_stage(event: LoginEvent) -> LoginStage {
    match event {
        LoginEvent::AuthInfoFetched(Ok(_)) => LoginStage::Verifying,
        LoginEvent::PasswordVerified(Ok(true), _) => LoginStage::Encoding,
        _ => LoginStage::Finished,
    }
}

/// What the login `flow` asks for next on `event`: a store error ends it
/// with that error; the stored user leads to checking the password against
/// the user's hash; a match leads to signing a token for the user that
/// expires `TOKEN_LIFETIME_SECS` after the clock reading, and anything else
/// ends the login with `IncorrectPassword`; the signed token ends the login,
/// and a signing failure ends it with `EncodeToken`.
pub open spec fn login_action(flow: LoginFlow, event: LoginEvent) -> LoginAction {
    match event {
        LoginEvent::AuthInfoFetched(Err(m)) => LoginAction::Finish(
            Err(AuthServiceError::InternalError(m)),
        ),
        LoginEvent::AuthInfoFetched(Ok(u)) => LoginAction::VerifyPassword(
            u.passhash,
            flow.credential.password,
        ),
        LoginEvent::PasswordVerified(Ok(true), now) => LoginAction::EncodeToken(
            login_claims(flow.user_id, now),
        ),
        LoginEvent::PasswordVerified(_, _) => LoginAction::Finish(
            Err(AuthServiceError::IncorrectPassword),
        ),
        LoginEvent::TokenEncoded(Ok(t)) => LoginAction::Finish(Ok(t)),
        LoginEvent::TokenEncoded(Err(_)) => LoginAction::Finish(Err(AuthServiceError::EncodeToken)),
    }
}

impl LoginFlow {
    /// Starts a login: first fetch the stored user with the email.
    pub fn start(credential: Credential) -> (r: (LoginFlow, LoginAction))
        ensures
            r.0.credential == credential,
            r.0.stage is FetchingAuthInfo,
            r.0.user_id == 0,
            r.1 == LoginAction::FetchAuthInfo(credential.email),
    {
        let email = credential.email.clone();
        (LoginFlow { credential, stage: LoginStage::FetchingAuthInfo, user_id: 0 }, LoginAction::FetchAuthInfo(email))
    }

    /// Takes the outcome of the work asked for and names the next step. A
    /// store error ends the login with it; a password that does not match,
    /// or cannot be checked, ends it with `IncorrectPassword`; otherwise a
    /// token for the user, expiring `TOKEN_LIFETIME_SECS` after the clock
    /// reading, is signed and handed back.
    pub fn step(&mut self, event: LoginEvent) -> (r: LoginAction)
        requires
            login_event_fits(old(self).stage, event),
        ensures
            final(self).credential == old(self).credential,
            final(self).stage == login_next_stage(event),
            final(self).user_id == (match event {
                LoginEvent::AuthInfoFetched(Ok(u)) => u.id,
                _ => old(self).user_id,
            }),
            r == login_action(*old(self), event),
    {
        match event {
            LoginEvent::AuthInfoFetched(Err(m)) => {
                self.stage = LoginStage::Finished;
                LoginAction::Finish(Err(AuthServiceError::InternalError(m)))
            },
            LoginEvent::AuthInfoFetched(Ok(u)) => {
                self.stage = LoginStage::Verifying;
                self.user_id = u.id;
                LoginAction::VerifyPassword(u.passhash, self.credential.password.clone())
            },
            LoginEvent::PasswordVerified(valid, now) => {
                match valid {
                    Ok(true) => {
                        self.stage = LoginStage::Encoding;
                        let exp = now + TOKEN_LIFETIME_SECS;
                        LoginAction::EncodeToken(TokenClaims { id: self.user_id, exp: exp as usize })
                    },
                    _ => {
                        self.stage = LoginStage::Finished;
                        LoginAction::Finish(Err(AuthServiceError::IncorrectPassword))
                    },
                }
            },
            LoginEvent::TokenEncoded(Ok(t)) => {
                self.stage = LoginStage::Finished;
                LoginAction::Finish(Ok(t))
            },
            LoginEvent::TokenEncoded(Err(_)) => {
                self.stage = LoginStage::Finished;
                LoginAction::Finish(Err(AuthServiceError::EncodeToken))
            },
        }
    }
}

/// The outcome of authenticating a token, given what decoding it gave:
/// its claims, or `DecodeToken`.
pub fn authenticate(decoded: Result<TokenClaims, ()>) -> (r: Result<TokenClaims, AuthServiceError>)
    ensures
        match decoded {
            Ok(c) => r == Ok::<TokenClaims, AuthServiceError>(c),
            Err(_) => r == Err::<TokenClaims, AuthServiceError>(AuthServiceError::DecodeToken),
        },
{
    match decoded {
        Ok(c) => Ok(c),
        Err(_) => Err(AuthServiceError::DecodeToken),
    }
}

/// The stage a registration reaches after `events`, from its start.
pub open spec fn register_stage_after(events: Seq<RegisterEvent>) -> RegisterStage {
    if events.len() == 0 {
        RegisterStage::CheckingExistence
    } else {
        register_next_stage(events.last())
    }
}

/// Whether each of `events`, from the start of a registration, answers the
/// work that the registration waits for at that point.
pub open spec fn register_run_fits(events: Seq<RegisterEvent>) -> bool
    decreases events.len(),
{
    events.len() == 0 || (register_run_fits(events.drop_last()) && register_event_fits(
        register_stage_after(events.drop_last()),
        events.last(),
    ))
}

/// The shape of every registration: the existence check comes first and
/// only once, and a registration that hashes or creates found the email
/// free.
proof fn lemma_register_run_shape(events: Seq<RegisterEvent>)
    requires
        register_run_fits(events),
        events.len() > 0,
    ensures
        events[0] is ExistenceChecked,
        forall|i: int| 1 <= i < events.len() ==> !(#[trigger] events[i] is ExistenceChecked),
        (register_stage_after(events) is Hashing || register_stage_after(events) is Creating)
            ==> events[0] == RegisterEvent::ExistenceChecked(Ok(false)),
    decreases events.len(),
{
    let prefix = events.drop_last();
    if events.len() == 1 {
        assert(events.last() == events[0]);
    } else {
        lemma_register_run_shape(prefix);
        assert(prefix[0] == events[0]);
        assert forall|i: int| 1 <= i < events.len() implies !(#[trigger] events[i] is ExistenceChecked) by {
            if i < events.len() - 1 {
                assert(prefix[i] == events[i]);
            }
        }
    }
}

/// A registration ends with a new user's id only when the email was found
/// free, and never when it was found taken: in every run of events that the
/// registration accepts, if the last one is answered with an id, the first
/// reported the email free and none reported it taken.
pub proof fn lemma_registration_succeeds_only_for_free_email(
    registration: Registration,
    events: Seq<RegisterEvent>,
)
    requires
        register_run_fits(events),
        events.len() > 0,
        register_action(registration, events.last()) is Finish,
        register_action(registration, events.last())->Finish_0 is Ok,
    ensures
        events[0] == RegisterEvent::ExistenceChecked(Ok(false)),
        forall|i: int|
            0 <= i < events.len() ==> #[trigger] events[i] != RegisterEvent::ExistenceChecked(Ok(true)),
{
    let prefix = events.drop_last();
    assert(events.last() is UserCreated);
    assert(register_event_fits(register_stage_after(prefix), events.last()));
    assert(prefix.len() > 0);
    lemma_register_run_shape(prefix);
    lemma_register_run_shape(events);
    assert(prefix[0] == events[0]);
}

/// The stage a login reaches after `events`, from its start.
pub open spec fn login_stage_after(events: Seq<LoginEvent>) -> LoginStage {
    if events.len() == 0 {
        LoginStage::FetchingAuthInfo
    } else {
        login_next_stage(events.last())
    }
}

/// Whether each of `events`, from the start of a login, answers the work
/// that the login waits for at that point.
pub open spec fn login_run_fits(events: Seq<LoginEvent>) -> bool
    decreases events.len(),
{
    events.len() == 0 || (login_run_fits(events.drop_last()) && login_event_fits(
        login_stage_after(events.drop_last()),
        events.last(),
    ))
}

/// The shape of every login: the user is fetched first, the password is
/// checked second, a token is signed third, and nothing follows.
proof fn lemma_login_run_shape(events: Seq<LoginEvent>)
    requires
        login_run_fits(events),
    ensures
        events.len() <= 3,
        events.len() > 0 ==> events[0] is AuthInfoFetched,
        events.len() > 1 ==> events[0] matches LoginEvent::AuthInfoFetched(Ok(_)),
        events.len() > 1 ==> events[1] is PasswordVerified,
        events.len() > 2 ==> events[1] matches LoginEvent::PasswordVerified(Ok(true), _),
        events.len() > 2 ==> events[2] is TokenEncoded,
        login_stage_after(events) is Verifying ==> events.len() == 1,
        login_stage_after(events) is Encoding ==> events.len() == 2,
    decreases events.len(),
{
    if events.len() > 0 {
        let prefix = events.drop_last();
        lemma_login_run_shape(prefix);
        if events.len() >= 2 {
            assert(prefix[0] == events[0]);
        }
        if events.len() >= 3 {
            assert(prefix[1] == events[1]);
        }
    }
}

/// A login hands out a token only after the password matched the stored
/// hash: in every run of events that the login accepts, if the last one is
/// answered with a token, the user was found, the password was checked and
/// matched, and the token is the one signed after that.
pub proof fn lemma_token_only_after_matching_password(flow: LoginFlow, events: Seq<LoginEvent>)
    requires
        login_run_fits(events),
        events.len() > 0,
        login_action(flow, events.last()) is Finish,
        login_action(flow, events.last())->Finish_0 is Ok,
    ensures
        events.len() == 3,
        events[0] matches LoginEvent::AuthInfoFetched(Ok(_)),
        events[1] matches LoginEvent::PasswordVerified(Ok(true), _),
        events[2] == LoginEvent::TokenEncoded(Ok(login_action(flow, events.last())->Finish_0->Ok_0)),
{
    let prefix = events.drop_last();
    assert(events.last() is TokenEncoded);
    assert(login_event_fits(login_stage_after(prefix), events.last()));
    lemma_login_run_shape(prefix);
    lemma_login_run_shape(events);
}

} // verus!
