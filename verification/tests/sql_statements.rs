use task_service::models::project::{DataJson, ProjectDbo};
use task_service::models::task::TaskDbo;
use task_service::repository::project::update_statement as project_update;
use task_service::repository::task::update_statement as task_update;
use task_service::repository::RepositoryError;

const ID: u128 = 0x67e55044_10b1_426f_9247_bb680e5fe0c8;
const PROJECT: u128 = 0xa1a2a3a4_b1b2_c1c2_d1d2_d3d4d5d6d7d8;

fn task(title: &str, description: &str, completed: bool) -> TaskDbo {
    TaskDbo {
        id: ID,
        project_id: PROJECT,
        title: title.to_string(),
        description: description.to_string(),
        completed,
    }
}

fn printed(id: u128) -> String {
    RepositoryError::TaskNotFound(id).message()["Task not found: ".len()..].to_string()
}

#[test]
fn uuid_is_printed_hyphenated_lowercase() {
    assert_eq!(printed(ID), "67e55044-10b1-426f-9247-bb680e5fe0c8");
    assert_eq!(printed(PROJECT), "a1a2a3a4-b1b2-c1c2-d1d2-d3d4d5d6d7d8");
    assert_eq!(printed(0), "00000000-0000-0000-0000-000000000000");
    assert_eq!(printed(u128::MAX), "ffffffff-ffff-ffff-ffff-ffffffffffff");
}

#[test]
fn unchanged_task_needs_no_update() {
    let t = task("write", "the docs", false);
    assert_eq!(t.get_update(t.clone()), None);
}

#[test]
fn update_sets_only_changed_fields_in_order() {
    let old = task("write", "the docs", false);
    let new = task("write", "all docs", true);
    assert_eq!(
        new.get_update(old),
        Some("SET \"description\" = 'all docs',SET \"completed\" = true".to_string())
    );
}

#[test]
fn update_of_one_text_field() {
    let old = task("write", "the docs", false);
    let new = task("read", "the docs", false);
    assert_eq!(new.get_update(old), Some("SET \"title\" = 'read'".to_string()));
}

#[test]
fn update_of_identifiers_quotes_them() {
    let old = task("a", "b", true);
    let mut new = task("a", "b", true);
    new.project_id = 1;
    assert_eq!(
        new.get_update(old),
        Some("SET \"project_id\" = '00000000-0000-0000-0000-000000000001'".to_string())
    );
}

#[test]
fn force_update_sets_every_field_quoted() {
    let t = task("write", "docs", true);
    assert_eq!(
        t.get_force_update(),
        Some(
            "SET \"id\" = '67e55044-10b1-426f-9247-bb680e5fe0c8',SET \"project_id\" = 'a1a2a3a4-b1b2-c1c2-d1d2-d3d4d5d6d7d8',SET \"title\" = 'write',SET \"description\" = 'docs',SET \"completed\" = 'true'"
                .to_string()
        )
    );
}

#[test]
fn task_update_statement_names_the_task() {
    let old = task("write", "the docs", false);
    let new = task("write", "the docs", true);
    assert_eq!(
        task_update(&new, Some(old)).ok(),
        Some(
            "Update Tasks SET \"completed\" = true WHERE id = '67e55044-10b1-426f-9247-bb680e5fe0c8'"
                .to_string()
        )
    );
}

#[test]
fn task_update_without_change_is_refused() {
    let t = task("write", "the docs", false);
    match task_update(&t, Some(t.clone())) {
        Err(e) => {
            assert!(matches!(e, RepositoryError::NothingToUpdate));
            assert_eq!(e.message(), "Nothing to update");
        }
        Ok(_) => panic!("an unchanged task must not be updated"),
    }
}

#[test]
fn task_update_without_old_value_sets_everything() {
    let t = task("x", "y", false);
    let sql = task_update(&t, None).ok().unwrap();
    assert!(sql.starts_with("Update Tasks SET \"id\" = '67e55044-10b1-426f-9247-bb680e5fe0c8',"));
    assert!(sql.ends_with(",SET \"completed\" = 'false' WHERE id = '67e55044-10b1-426f-9247-bb680e5fe0c8'"));
}

fn project(name: &str, color: Option<&str>, favorite: Option<bool>) -> ProjectDbo {
    ProjectDbo {
        id: ID,
        name: name.to_string(),
        owner_id: PROJECT,
        settings: DataJson { color: color.map(|c| c.to_string()), is_favorite: favorite },
    }
}

#[test]
fn settings_json_is_camel_case_with_nulls() {
    let d = DataJson { color: None, is_favorite: None };
    assert_eq!(d.to_json(), "{\"color\":null,\"isFavorite\":null}");
    let d = DataJson { color: Some("red \"x\"".to_string()), is_favorite: Some(true) };
    assert_eq!(d.to_json(), "{\"color\":\"red \\\"x\\\"\",\"isFavorite\":true}");
}

#[test]
fn settings_json_escapes_the_color() {
    let d = DataJson { color: Some("a\\b\n\t\u{1}\u{1f}é/".to_string()), is_favorite: Some(false) };
    assert_eq!(
        d.to_json(),
        "{\"color\":\"a\\\\b\\n\\t\\u0001\\u001fé/\",\"isFavorite\":false}"
    );
}

#[test]
fn project_rename_updates_name_only() {
    let old = project("home", Some("red"), None);
    let new = project("work", Some("red"), None);
    assert_eq!(
        project_update(&new, &old).ok(),
        Some(
            "Update Projects SET \"name\" = 'work' WHERE id = '67e55044-10b1-426f-9247-bb680e5fe0c8'"
                .to_string()
        )
    );
}

#[test]
fn project_settings_change_is_stored_as_json() {
    let old = project("home", Some("red"), None);
    let new = project("work", Some("blue"), Some(false));
    assert_eq!(
        project_update(&new, &old).ok(),
        Some(
            "Update Projects SET \"name\" = 'work',SET \"settings\" = '{\"color\":\"blue\",\"isFavorite\":false}' WHERE id = '67e55044-10b1-426f-9247-bb680e5fe0c8'"
                .to_string()
        )
    );
}

#[test]
fn project_update_without_change_is_refused() {
    let old = project("home", Some("red"), Some(true));
    let new = project("home", Some("red"), Some(true));
    match project_update(&new, &old) {
        Err(e) => {
            assert!(matches!(e, RepositoryError::NothingToUpdateInProject));
            assert_eq!(e.message(), "Nothing to update in project");
        }
        Ok(_) => panic!("an unchanged project must not be updated"),
    }
}

#[test]
fn repository_error_messages() {
    assert_eq!(
        RepositoryError::TaskNotFound(ID).message(),
        "Task not found: 67e55044-10b1-426f-9247-bb680e5fe0c8"
    );
}
