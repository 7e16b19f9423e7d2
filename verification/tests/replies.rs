use task_service::api::errors::{ErrorResponse, ProjectError, TaskError, UpdateStep};
use task_service::api::health::report;
use task_service::api::projects::{list_projects, project_view};
use task_service::auth::{bearer_decision, login_credential, login_reply, register_reply, AuthError, BearerDecision};
use task_service::models::project::{DataJson, ProjectDbo, ProjectId};
use task_service::models::task::{TaskDbo, TaskId, TaskView};
use task_service::models::user::TokenClaims;
use task_service::services::auth_service::AuthServiceError;

#[test]
fn task_errors_and_their_status() {
    assert_eq!(TaskError::NotFound.status_code(), 404);
    assert_eq!(TaskError::InvalidPatch.status_code(), 400);
    assert_eq!(TaskError::InternalError.status_code(), 500);
    assert_eq!(TaskError::Database("down".to_string()).status_code(), 500);
    assert_eq!(TaskError::NotFound.error_response(), (404, "NotFound".to_string()));
    assert_eq!(TaskError::Database("down".to_string()).error_response(), (500, "down".to_string()));
    assert_eq!(TaskError::InvalidPatch.to_text(), "InvalidPatch");
    assert_eq!(TaskError::InternalError.to_text(), "InternalError");
}

#[test]
fn project_errors_and_their_reasons() {
    let (s, b) = ProjectError::NotFound.error_response();
    assert_eq!((s, b.reason.as_str()), (404, "Project not found"));
    let (s, b) = ProjectError::InvalidPatch.error_response();
    assert_eq!((s, b.reason.as_str()), (400, "Invalid patch"));
    let (s, b) = ProjectError::InternalError.error_response();
    assert_eq!((s, b.reason.as_str()), (500, "Internal error"));
    assert_eq!(ProjectError::NotFound.to_text(), "NotFound");
    assert_eq!(ErrorResponse::new("x").reason, "x");
}

#[test]
fn failed_update_steps() {
    assert!(matches!(TaskError::for_failed_step(UpdateStep::Patch), TaskError::InvalidPatch));
    assert!(matches!(TaskError::for_failed_step(UpdateStep::Decode), TaskError::InvalidPatch));
    assert!(matches!(TaskError::for_failed_step(UpdateStep::Fetch), TaskError::InternalError));
    assert!(matches!(TaskError::for_failed_step(UpdateStep::Authorize), TaskError::InternalError));
    assert!(matches!(ProjectError::for_failed_step(UpdateStep::Encode), ProjectError::InternalError));
    assert!(matches!(ProjectError::for_failed_step(UpdateStep::Store), ProjectError::InternalError));
    assert!(matches!(ProjectError::for_failed_step(UpdateStep::Patch), ProjectError::InvalidPatch));
    assert_eq!(ProjectError::for_failed_step(UpdateStep::Decode).status_code(), 400);
}

#[test]
fn auth_errors_and_their_reasons() {
    let (s, b) = AuthError::InternalError.error_response();
    assert_eq!((s, b.reason.as_str()), (500, "Internal error"));
    let (s, b) = AuthError::UserAlreadyExist.error_response();
    assert_eq!((s, b.reason.as_str()), (400, "User already exists"));
    let (s, b) = AuthError::IncorrectCredential.error_response();
    assert_eq!((s, b.reason.as_str()), (400, "Incorect email or password"));
}

#[test]
fn health_reports() {
    let r = report(true);
    assert_eq!((r.status, r.ready, r.reason.as_str()), (200, true, "Everything is OK"));
    let r = report(false);
    assert_eq!((r.status, r.ready, r.reason.as_str()), (500, false, "Database connection error"));
}

#[test]
fn handler_replies() {
    assert_eq!(register_reply(Ok(9)).ok(), Some(9));
    assert!(matches!(
        register_reply(Err(AuthServiceError::UserAlreadyExist("a@b".to_string()))),
        Err(AuthError::InternalError)
    ));
    assert!(matches!(login_credential("a@b", None), Err(AuthError::IncorrectCredential)));
    let c = login_credential("a@b", Some("pw")).ok().unwrap();
    assert_eq!((c.email.as_str(), c.password.as_str()), ("a@b", "pw"));
    assert_eq!(login_reply(Ok("tok".to_string())).ok().unwrap().bearer_token, "tok");
    assert!(matches!(login_reply(Err(AuthServiceError::IncorrectPassword)), Err(AuthError::IncorrectCredential)));
    match bearer_decision(Ok(TokenClaims { id: 3, exp: 10 })) {
        BearerDecision::Admit(c) => assert_eq!((c.id, c.exp), (3, 10)),
        BearerDecision::Challenge => panic!("valid claims are admitted"),
    }
    assert!(matches!(bearer_decision(Err(AuthServiceError::DecodeToken)), BearerDecision::Challenge));
}

#[test]
fn views_keep_fields_and_order() {
    let dbo = |id: u128, title: &str| TaskDbo {
        id,
        project_id: 1,
        title: title.to_string(),
        description: "d".to_string(),
        completed: id % 2 == 0,
    };
    let p = ProjectDbo {
        id: 1,
        name: "home".to_string(),
        owner_id: 2,
        settings: DataJson { color: None, is_favorite: Some(true) },
    };
    let v = project_view(p.clone(), vec![dbo(3, "a"), dbo(4, "b")]);
    assert_eq!(v.name, "home");
    assert_eq!(v.settings.is_favorite, Some(true));
    assert_eq!(v.tasks.len(), 2);
    assert_eq!((v.tasks[0].id, v.tasks[0].title.as_str(), v.tasks[0].completed), (3, "a", false));
    assert_eq!((v.tasks[1].id, v.tasks[1].title.as_str(), v.tasks[1].completed), (4, "b", true));
    let l = list_projects(vec![p.clone(), p]);
    assert_eq!(l.len(), 2);
    assert_eq!((l[1].id, l[1].name.as_str()), (1, "home"));
    let t: TaskView = TaskView::from(dbo(8, "x"));
    assert_eq!((t.id, t.description.as_str()), (8, "d"));
    assert_eq!(TaskId::from(5).into(), 5);
    assert_eq!(ProjectId::from(6).id, 6);
}
