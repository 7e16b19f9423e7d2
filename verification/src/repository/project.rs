//! The statement that updates a stored project.

use vstd::prelude::*;
use crate::models::project::{same_settings, settings_json_text, ProjectDbo};
use crate::repository::RepositoryError;
use crate::text::{assignment, join_clauses, push_assignment, quote, quoted, uuid_text, uuid_to_string};

verus! {

/// The assignments that turn `old` into `proj`, the new settings being
/// `settings_json` as JSON: the name when it differs, then the settings,
/// quoted, when they differ.
pub open spec fn project_changes_with(proj: ProjectDbo, old: ProjectDbo, settings_json: Seq<char>) -> Seq<
    Seq<char>,
> {
    (if proj.name@ != old.name@ {
        seq![assignment("name"@, quoted(proj.name@))]
    } else {
        Seq::empty()
    }) + (if !same_settings(proj.settings, old.settings) {
        seq![assignment("settings"@, quoted(settings_json))]
    } else {
        Seq::empty()
    })
}

/// The assignments that turn `old` into `proj`.
pub open spec fn project_changes(proj: ProjectDbo, old: ProjectDbo) -> Seq<Seq<char>> {
    project_changes_with(proj, old, settings_json_text(proj.settings))
}

/// `Update Projects <clauses> WHERE id = '<id>'`.
pub open spec fn project_update_sql(clauses: Seq<char>, id: u128) -> Seq<char> {
    "Update Projects "@ + clauses + " WHERE id = '"@ + uuid_text(id) + "'"@
}

/// The statement that stores `proj` over `old`, the stored project with its
/// id, given the JSON text of `proj`'s settings. Refused when neither the
/// name nor the settings change.
pub fn update_statement_with(proj: &ProjectDbo, old: &ProjectDbo, settings_json: &str) -> (r: Result<
    String,
    RepositoryError,
>)
    ensures
        match r {
            Ok(s) => project_changes_with(*proj, *old, settings_json@).len() > 0 && s@
                == project_update_sql(
                join_clauses(project_changes_with(*proj, *old, settings_json@)),
                proj.id,
            ),
            Err(e) => e == RepositoryError::NothingToUpdateInProject && project_changes_with(
                *proj,
                *old,
                settings_json@,
            ).len() == 0,
        },
{
    let mut update = String::new();
    let ghost mut parts: Seq<Seq<char>> = Seq::empty();
    let mut first = true;
    if proj.name != old.name {
        let value = quote(proj.name.as_str());
        push_assignment(&mut update, Ghost(parts), first, "name", value.as_str());
        proof {
            parts = parts.push(assignment("name"@, value@));
        }
        first = false;
    }
    if !proj.settings.equals(&old.settings) {
        let value = quote(settings_json);
        push_assignment(&mut update, Ghost(parts), first, "settings", value.as_str());
        proof {
            parts = parts.push(assignment("settings"@, value@));
        }
        first = false;
    }
    assert(parts =~= project_changes_with(*proj, *old, settings_json@));
    if first {
        return Err(RepositoryError::NothingToUpdateInProject);
    }
    let mut sql = String::from_str("Update Projects ");
    sql.append(update.as_str());
    sql.append(" WHERE id = '");
    sql.append(uuid_to_string(proj.id).as_str());
    sql.append("'");
    Ok(sql)
}

/// The statement that stores `proj` over `old`, the stored project with its
/// id. Refused when neither the name nor the settings change.
pub fn update_statement(proj: &ProjectDbo, old: &ProjectDbo) -> (r: Result<String, RepositoryError>)
    ensures
        match r {
            Ok(s) => project_changes(*proj, *old).len() > 0 && s@ == project_update_sql(
                join_clauses(project_changes(*proj, *old)),
                proj.id,
            ),
            Err(e) => e == RepositoryError::NothingToUpdateInProject && project_changes(
                *proj,
                *old,
            ).len() == 0,
        },
{
    let json = proj.settings.to_json();
    update_statement_with(proj, old, json.as_str())
}

/// A project update is refused as empty exactly when the name and the
/// settings are both unchanged.
pub proof fn lemma_project_update_needed_iff_changed(proj: ProjectDbo, old: ProjectDbo)
    ensures
        (project_changes(proj, old).len() == 0) == (proj.name@ == old.name@ && same_settings(
            proj.settings,
            old.settings,
        )),
{
}

/// A project update that changes the settings, in the color or in the
/// favorite flag alone, carries the clause that writes the new settings as
/// quoted JSON, so it is never refused as empty; one that changes the name
/// carries the clause that writes the new name.
pub proof fn lemma_project_update_writes_changes(proj: ProjectDbo, old: ProjectDbo)
    ensures
        (proj.settings.is_favorite != old.settings.is_favorite || (proj.settings.color is Some)
            != (old.settings.color is Some) || (proj.settings.color is Some
            && old.settings.color is Some && proj.settings.color->0@ != old.settings.color->0@))
            ==> project_changes(proj, old).contains(
            "SET \""@ + "settings"@ + "\" = "@ + ("'"@ + settings_json_text(proj.settings) + "'"@),
        ),
        proj.name@ != old.name@ ==> project_changes(proj, old).contains(
            "SET \""@ + "name"@ + "\" = "@ + ("'"@ + proj.name@ + "'"@),
        ),
{
    let a = if proj.name@ != old.name@ {
        seq![assignment("name"@, quoted(proj.name@))]
    } else {
        Seq::empty()
    };
    let b = if !same_settings(proj.settings, old.settings) {
        seq![assignment("settings"@, quoted(settings_json_text(proj.settings)))]
    } else {
        Seq::empty()
    };
    let all = project_changes(proj, old);
    assert(all == a + b);
    if proj.name@ != old.name@ {
        assert(all[0] == a[0]);
    }
    if !same_settings(proj.settings, old.settings) {
        assert(all[a.len() as int] == b[0]);
    }
}

} // verus!
