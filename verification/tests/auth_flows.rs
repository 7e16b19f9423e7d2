use task_service::api::auth::login::{basic_auth, BasicAuthAction, BasicAuthEvent, BasicAuthReply};
use task_service::api::auth::user::{create_user, CreateUserAction, CreateUserEvent, CreateUserReply};
use task_service::models::user::{AuthUser, Credential, Registration};
use task_service::services::auth_service::{
    authenticate, AuthServiceError, LoginAction, LoginEvent, LoginFlow, RegisterAction, RegisterEvent,
    RegisterFlow,
};

fn registration() -> Registration {
    Registration { name: "Ann".to_string(), email: "ann@x".to_string(), password: "pw".to_string() }
}

#[test]
fn register_refuses_a_taken_email() {
    let (mut flow, first) = RegisterFlow::start(registration());
    match first {
        RegisterAction::CheckExistence(c) => assert_eq!((c.email.as_str(), c.password.as_str()), ("ann@x", "pw")),
        _ => panic!("registration starts by checking the email"),
    }
    match flow.step(RegisterEvent::ExistenceChecked(Ok(true))) {
        RegisterAction::Finish(Err(AuthServiceError::UserAlreadyExist(e))) => assert_eq!(e, "ann@x"),
        _ => panic!("a taken email is refused"),
    }
}

#[test]
fn register_creates_with_the_hash() {
    let (mut flow, _) = RegisterFlow::start(registration());
    match flow.step(RegisterEvent::ExistenceChecked(Ok(false))) {
        RegisterAction::HashPassword(p) => assert_eq!(p, "pw"),
        _ => panic!("a free email leads to hashing"),
    }
    match flow.step(RegisterEvent::PasswordHashed("h#".to_string())) {
        RegisterAction::CreateUser(u) => {
            assert_eq!((u.name.as_str(), u.email.as_str(), u.passhash.as_str()), ("Ann", "ann@x", "h#"))
        }
        _ => panic!("the user is created next"),
    }
    assert!(matches!(flow.step(RegisterEvent::UserCreated(Ok(42))), RegisterAction::Finish(Ok(42))));
}

#[test]
fn register_reports_store_errors() {
    let (mut flow, _) = RegisterFlow::start(registration());
    match flow.step(RegisterEvent::ExistenceChecked(Err("db down".to_string()))) {
        RegisterAction::Finish(Err(AuthServiceError::InternalError(m))) => assert_eq!(m, "db down"),
        _ => panic!("store errors end the registration"),
    }
}

fn credential() -> Credential {
    Credential { email: "ann@x".to_string(), password: "pw".to_string() }
}

#[test]
fn login_issues_a_token_for_ten_hours() {
    let (mut flow, first) = LoginFlow::start(credential());
    assert!(matches!(first, LoginAction::FetchAuthInfo(e) if e == "ann@x"));
    match flow.step(LoginEvent::AuthInfoFetched(Ok(AuthUser { id: 77, passhash: "h#".to_string() }))) {
        LoginAction::VerifyPassword(h, p) => assert_eq!((h.as_str(), p.as_str()), ("h#", "pw")),
        _ => panic!("the password is checked next"),
    }
    match flow.step(LoginEvent::PasswordVerified(Ok(true), 1_700_000_000)) {
        LoginAction::EncodeToken(c) => assert_eq!((c.id, c.exp), (77, 1_700_036_000)),
        _ => panic!("a matching password leads to a token"),
    }
    assert!(matches!(flow.step(LoginEvent::TokenEncoded(Ok("t".to_string()))), LoginAction::Finish(Ok(t)) if t == "t"));
}

#[test]
fn login_refuses_a_wrong_password() {
    let (mut flow, _) = LoginFlow::start(credential());
    flow.step(LoginEvent::AuthInfoFetched(Ok(AuthUser { id: 1, passhash: "h".to_string() })));
    assert!(matches!(
        flow.step(LoginEvent::PasswordVerified(Ok(false), 0)),
        LoginAction::Finish(Err(AuthServiceError::IncorrectPassword))
    ));
    let (mut flow, _) = LoginFlow::start(credential());
    flow.step(LoginEvent::AuthInfoFetched(Ok(AuthUser { id: 1, passhash: "h".to_string() })));
    assert!(matches!(
        flow.step(LoginEvent::PasswordVerified(Err(()), 0)),
        LoginAction::Finish(Err(AuthServiceError::IncorrectPassword))
    ));
}

#[test]
fn login_reports_unknown_users_and_signing_failures() {
    let (mut flow, _) = LoginFlow::start(credential());
    assert!(matches!(
        flow.step(LoginEvent::AuthInfoFetched(Err("no rows".to_string()))),
        LoginAction::Finish(Err(AuthServiceError::InternalError(m))) if m == "no rows"
    ));
    let (mut flow, _) = LoginFlow::start(credential());
    flow.step(LoginEvent::AuthInfoFetched(Ok(AuthUser { id: 1, passhash: "h".to_string() })));
    flow.step(LoginEvent::PasswordVerified(Ok(true), 0));
    assert!(matches!(
        flow.step(LoginEvent::TokenEncoded(Err(()))),
        LoginAction::Finish(Err(AuthServiceError::EncodeToken))
    ));
}

#[test]
fn authenticate_maps_decoding_failure() {
    assert!(matches!(authenticate(Err(())), Err(AuthServiceError::DecodeToken)));
}

#[test]
fn basic_auth_needs_a_password() {
    let (_, a) = basic_auth("ann@x", None);
    assert!(matches!(a, BasicAuthAction::Respond(BasicAuthReply::Unauthorized(m)) if m == "Must provide password"));
}

#[test]
fn basic_auth_token_lasts_an_hour() {
    let (mut flow, a) = basic_auth("ann@x", Some("pw"));
    assert!(matches!(a, BasicAuthAction::FetchUser(e) if e == "ann@x"));
    flow.step(BasicAuthEvent::UserFetched(Some(AuthUser { id: 5, passhash: "h".to_string() })));
    match flow.step(BasicAuthEvent::PasswordVerified(true, 100)) {
        BasicAuthAction::EncodeToken(c) => assert_eq!((c.id, c.exp), (5, 3700)),
        _ => panic!("a matching password leads to a token"),
    }
    assert!(matches!(
        flow.step(BasicAuthEvent::TokenEncoded("t".to_string())),
        BasicAuthAction::Respond(BasicAuthReply::Token(t)) if t.bearer_token == "t"
    ));
}

#[test]
fn basic_auth_refuses_unknown_or_wrong() {
    let (mut flow, _) = basic_auth("ann@x", Some("pw"));
    assert!(matches!(
        flow.step(BasicAuthEvent::UserFetched(None)),
        BasicAuthAction::Respond(BasicAuthReply::Unauthorized(m)) if m == "Incorrect password or email"
    ));
    let (mut flow, _) = basic_auth("ann@x", Some("pw"));
    flow.step(BasicAuthEvent::UserFetched(Some(AuthUser { id: 5, passhash: "h".to_string() })));
    assert!(matches!(
        flow.step(BasicAuthEvent::PasswordVerified(false, 0)),
        BasicAuthAction::Respond(BasicAuthReply::Unauthorized(m)) if m == "Incorrect password or email"
    ));
}

#[test]
fn create_user_flow() {
    let (mut flow, a) = create_user(registration());
    assert!(matches!(a, CreateUserAction::CheckEmail(e) if e == "ann@x"));
    assert!(matches!(
        flow.step(CreateUserEvent::EmailChecked(false)),
        CreateUserAction::HashPassword(p) if p == "pw"
    ));
    assert!(matches!(
        flow.step(CreateUserEvent::PasswordHashed("h".to_string())),
        CreateUserAction::InsertUser(u) if u.passhash == "h" && u.name == "Ann"
    ));
    assert!(matches!(
        flow.step(CreateUserEvent::UserInserted(1, "Ann".to_string())),
        CreateUserAction::Respond(CreateUserReply::Created(1, n)) if n == "Ann"
    ));
    let (mut flow, _) = create_user(registration());
    assert!(matches!(
        flow.step(CreateUserEvent::EmailChecked(true)),
        CreateUserAction::Respond(CreateUserReply::BadRequest(m)) if m == "already exists"
    ));
}
