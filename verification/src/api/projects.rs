//! What the project endpoints hand back.

use vstd::prelude::*;
use crate::models::project::{ProjectDbo, ProjectView, ProjectViewWithId};
use crate::models::task::{TaskDbo, TaskView};

verus! {

/// The view of a stored task.
pub open spec fn task_view_of(t: TaskDbo) -> TaskView {
    TaskView { id: t.id, title: t.title, description: t.description, completed: t.completed }
}

/// The listed form of a stored project.
pub open spec fn listed_project(p: ProjectDbo) -> ProjectViewWithId {
    ProjectViewWithId { id: p.id, name: p.name, settings: p.settings }
}

/// A project with its tasks, each in its client view, in the order given.
pub fn project_view(project: ProjectDbo, tasks: Vec<TaskDbo>) -> (r: ProjectView)
    ensures
        r.name == project.name,
        r.settings == project.settings,
        r.tasks@ == tasks@.map_values(|t: TaskDbo| task_view_of(t)),
        r.tasks.len() == tasks.len(),
        forall|i: int|
            0 <= i < tasks.len() ==> {
                &&& (#[trigger] r.tasks@[i]).id == tasks@[i].id
                &&& r.tasks@[i].title == tasks@[i].title
                &&& r.tasks@[i].description == tasks@[i].description
                &&& r.tasks@[i].completed == tasks@[i].completed
            },
{
    let mut views: Vec<TaskView> = Vec::new();
    let n = tasks.len();
    for i in 0..n
        invariant
            n == tasks.len(),
            views@ == tasks@.take(i as int).map_values(|t: TaskDbo| task_view_of(t)),
    {
        let v = TaskView::from(tasks[i].clone());
        views.push(v);
        assert(tasks@.take(i + 1).drop_last() =~= tasks@.take(i as int));
        assert(views@ =~= tasks@.take(i + 1).map_values(|t: TaskDbo| task_view_of(t)));
    }
    assert(tasks@.take(n as int) =~= tasks@);
    ProjectView { name: project.name, tasks: views, settings: project.settings }
}

/// A user's projects in their listed form, in the order given.
pub fn list_projects(projects: Vec<ProjectDbo>) -> (r: Vec<ProjectViewWithId>)
    ensures
        r@ == projects@.map_values(|p: ProjectDbo| listed_project(p)),
        r.len() == projects.len(),
        forall|i: int|
            0 <= i < projects.len() ==> {
                &&& (#[trigger] r@[i]).id == projects@[i].id
                &&& r@[i].name == projects@[i].name
                &&& r@[i].settings == projects@[i].settings
            },
{
    let mut out: Vec<ProjectViewWithId> = Vec::new();
    let n = projects.len();
    for i in 0..n
        invariant
            n == projects.len(),
            out@ == projects@.take(i as int).map_values(|p: ProjectDbo| listed_project(p)),
    {
        let p = projects[i].clone();
        out.push(ProjectViewWithId { id: p.id, name: p.name, settings: p.settings });
        assert(projects@.take(i + 1).drop_last() =~= projects@.take(i as int));
        assert(out@ =~= projects@.take(i + 1).map_values(|p: ProjectDbo| listed_project(p)));
    }
    assert(projects@.take(n as int) =~= projects@);
    out
}

/// A task's client view carries the stored task's own id, title,
/// description and completion flag.
pub proof fn lemma_task_view_keeps_fields(t: TaskDbo)
    ensures
        task_view_of(t).id == t.id,
        task_view_of(t).title == t.title,
        task_view_of(t).description == t.description,
        task_view_of(t).completed == t.completed,
{
}

/// A listed project carries the stored project's own id, name and settings,
/// color and favorite flag alike.
pub proof fn lemma_listed_project_keeps_fields(p: ProjectDbo)
    ensures
        listed_project(p).id == p.id,
        listed_project(p).name == p.name,
        listed_project(p).settings.color == p.settings.color,
        listed_project(p).settings.is_favorite == p.settings.is_favorite,
{
}

} // verus!
