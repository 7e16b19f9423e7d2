//! Projects: the stored record, what a client sends and sees, and the JSON
//! text of a project's settings.

use vstd::prelude::*;
use crate::models::task::TaskView;
use crate::text::{json_string, json_string_literal};
use vstd::pervasive::unreached;

verus! {

/// Display settings of a project, stored as JSON.
pub struct DataJson {
    pub color: Option<String>,
    pub is_favorite: Option<bool>,
}

/// Settings compared by what they hold.
pub open spec fn same_settings(a: DataJson, b: DataJson) -> bool {
    &&& a.color is Some == b.color is Some
    &&& a.color matches Some(x) ==> x@ == b.color->0@
    &&& a.is_favorite == b.is_favorite
}

/// A JSON value for an optional string: `null`, or the string literal.
pub open spec fn json_opt_string(o: Option<String>) -> Seq<char> {
    match o {
        None => "null"@,
        Some(s) => json_string(s@),
    }
}

/// A JSON value for an optional flag: `null`, `true` or `false`.
pub open spec fn json_opt_bool(o: Option<bool>) -> Seq<char> {
    match o {
        None => "null"@,
        Some(true) => "true"@,
        Some(false) => "false"@,
    }
}

/// The JSON object of the settings, keys in camel case and in field order:
/// `{"color":...,"isFavorite":...}`.
pub open spec fn settings_json_text(d: DataJson) -> Seq<char> {
    settings_json_with(json_opt_string(d.color), d.is_favorite)
}

impl Clone for DataJson {
    fn clone(&self) -> (r: Self)
        ensures
            r == *self,
    {
        let color = match &self.color {
            Some(c) => Some(c.clone()),
            None => None,
        };
        DataJson { color, is_favorite: self.is_favorite }
    }
}

impl DataJson {
    /// Whether two settings hold the same values.
    pub fn equals(&self, other: &DataJson) -> (r: bool)
        ensures
            r == same_settings(*self, *other),
    {
        let same_color = match (&self.color, &other.color) {
            (Some(a), Some(b)) => *a == *b,
            (None, None) => true,
            _ => false,
        };
        same_color && self.is_favorite == other.is_favorite
    }

    /// The settings as compact JSON.
    pub fn to_json(&self) -> (r: String)
        ensures
            r@ == settings_json_text(*self),
    {
        match &self.color {
            None => settings_json_from("null", self.is_favorite),
            Some(c) => match json_string_literal(c.as_str()) {
                Ok(t) => settings_json_from(t.as_str(), self.is_favorite),
                Err(_) => unreached(),
            },
        }
    }
}

/// The JSON object of settings whose color is the JSON value `color_json`.
pub open spec fn settings_json_with(color_json: Seq<char>, is_favorite: Option<bool>) -> Seq<char> {
    "{\"color\":"@ + color_json + ",\"isFavorite\":"@ + json_opt_bool(is_favorite) + "}"@
}

/// Frames the JSON object of settings around the already encoded color.
pub fn settings_json_from(color_json: &str, is_favorite: Option<bool>) -> (r: String)
    ensures
        r@ == settings_json_with(color_json@, is_favorite),
{
    let mut out = String::from_str("{\"color\":");
    out.append(color_json);
    out.append(",\"isFavorite\":");
    match is_favorite {
        None => out.append("null"),
        Some(true) => out.append("true"),
        Some(false) => out.append("false"),
    }
    out.append("}");
    out
}

/// What a client sends to create a project.
pub struct CreateProject {
    pub name: String,
    pub settings: DataJson,
}

/// Identifier of a project.
pub struct ProjectId {
    pub id: u128,
}

impl ProjectId {
    pub fn from(value: u128) -> (r: ProjectId)
        ensures
            r.id == value,
    {
        ProjectId { id: value }
    }
}

/// A project as it is stored.
pub struct ProjectDbo {
    pub id: u128,
    pub name: String,
    pub owner_id: u128,
    pub settings: DataJson,
}

impl Clone for ProjectDbo {
    fn clone(&self) -> (r: Self)
        ensures
            r == *self,
    {
        ProjectDbo {
            id: self.id,
            name: self.name.clone(),
            owner_id: self.owner_id,
            settings: self.settings.clone(),
        }
    }
}

/// A project with its tasks, as shown to its owner.
pub struct ProjectView {
    pub name: String,
    pub tasks: Vec<TaskView>,
    pub settings: DataJson,
}

/// A project in the list of a user's projects.
pub struct ProjectViewWithId {
    pub id: u128,
    pub name: String,
    pub settings: DataJson,
}

/// Settings are the same only when both the color and the favorite flag
/// agree: settings that differ in either are told apart.
pub proof fn lemma_settings_differ_in_either_field(a: DataJson, b: DataJson)
    ensures
        a.is_favorite != b.is_favorite ==> !same_settings(a, b),
        (a.color is Some) != (b.color is Some) ==> !same_settings(a, b),
        (a.color is Some && b.color is Some && a.color->0@ != b.color->0@) ==> !same_settings(a, b),
        (a.is_favorite == b.is_favorite && (a.color is None && b.color is None || a.color is Some
            && b.color is Some && a.color->0@ == b.color->0@)) ==> same_settings(a, b),
{
}

/// The JSON of settings is the object `{"color":C,"isFavorite":F}` where C
/// is `null` or the color's JSON string, and F is `null`, `true` or `false`
/// as the favorite flag is unset, set or cleared, whatever the color.
pub proof fn lemma_settings_json_members(d: DataJson)
    ensures
        settings_json_text(d) == "{\"color\":"@ + (match d.color {
            None => "null"@,
            Some(c) => json_string(c@),
        }) + ",\"isFavorite\":"@ + (match d.is_favorite {
            None => "null"@,
            Some(true) => "true"@,
            Some(false) => "false"@,
        }) + "}"@,
{
}

} // verus!
