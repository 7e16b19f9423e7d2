//! The in-memory task store: tasks kept by their identifier.

use vstd::prelude::*;
use std::collections::HashMap;
use crate::repository::objects::task_dbo::TaskDbo;
use crate::repository::RepositoryError;

verus! {

broadcast use vstd::std_specs::hash::group_hash_axioms;

/// Tasks kept in memory, each under its own identifier.
pub struct MemoryTaskRepos {
    map: HashMap<u128, TaskDbo>,
}

impl View for MemoryTaskRepos {
    type V = Map<u128, TaskDbo>;

    closed spec fn view(&self) -> Map<u128, TaskDbo> {
        self.map@
    }
}

impl MemoryTaskRepos {
    /// Every task is kept under its own identifier.
    #[verifier::type_invariant]
    closed spec fn well_formed(&self) -> bool {
        forall|k: u128| #[trigger] self.map@.contains_key(k) ==> self.map@[k].id == k
    }

    /// An empty store.
    pub fn new() -> (r: Self)
        ensures
            r@ == Map::<u128, TaskDbo>::empty(),
    {
        MemoryTaskRepos::default()
    }

    /// An empty store.
    pub fn default() -> (r: Self)
        ensures
            r@ == Map::<u128, TaskDbo>::empty(),
    {
        MemoryTaskRepos { map: HashMap::new() }
    }

    /// Stores `task` under its identifier, replacing any task stored there,
    /// and returns the identifier.
    pub fn create(&mut self, task: TaskDbo) -> (r: Result<u128, RepositoryError>)
        ensures
            final(self)@ == old(self)@.insert(task.id, task),
            r == Ok::<u128, RepositoryError>(task.id),
    {
        proof {
            use_type_invariant(&*self);
        }
        let id = task.id;
        let mut map = HashMap::new();
        std::mem::swap(&mut map, &mut self.map);
        map.insert(id, task);
        self.map = map;
        Ok(id)
    }

    /// The task stored under `id`, which carries that id, or an error that
    /// names `id`.
    pub fn get(&self, id: u128) -> (r: Result<TaskDbo, RepositoryError>)
        ensures
            match r {
                Ok(t) => self@.contains_key(id) && t == self@[id] && t.id == id,
                Err(e) => !self@.contains_key(id) && e == RepositoryError::TaskNotFound(id),
            },
    {
        proof {
            use_type_invariant(self);
        }
        match self.map.get(&id) {
            Some(t) => Ok(t.clone()),
            None => Err(RepositoryError::TaskNotFound(id)),
        }
    }

    /// Removes the task stored under `id`, if any.
    pub fn remove(&mut self, id: u128) -> (r: Result<(), RepositoryError>)
        ensures
            final(self)@ == old(self)@.remove(id),
            r is Ok,
    {
        proof {
            use_type_invariant(&*self);
        }
        let mut map = HashMap::new();
        std::mem::swap(&mut map, &mut self.map);
        map.remove(&id);
        self.map = map;
        Ok(())
    }

    /// Stores `task` under its identifier, replacing any task stored there.
    pub fn update(&mut self, task: TaskDbo) -> (r: Result<(), RepositoryError>)
        ensures
            final(self)@ == old(self)@.insert(task.id, task),
            r is Ok,
    {
        proof {
            use_type_invariant(&*self);
        }
        let id = task.id;
        let mut map = HashMap::new();
        std::mem::swap(&mut map, &mut self.map);
        map.insert(id, task);
        self.map = map;
        Ok(())
    }
}

/// What a read gives back of a write: after `create` or `update` stores
/// `task`, reading its id gives `task`, and every other id reads as before.
pub proof fn lemma_read_after_write(before: Map<u128, TaskDbo>, task: TaskDbo, other: u128)
    ensures
        before.insert(task.id, task).contains_key(task.id),
        before.insert(task.id, task)[task.id] == task,
        other != task.id ==> (before.insert(task.id, task).contains_key(other)
            == before.contains_key(other) && (before.contains_key(other) ==> before.insert(
            task.id,
            task,
        )[other] == before[other])),
{
}

/// After `remove(id)`, reading `id` fails, and every other id reads as
/// before.
pub proof fn lemma_read_after_remove(before: Map<u128, TaskDbo>, id: u128, other: u128)
    ensures
        !before.remove(id).contains_key(id),
        other != id ==> (before.remove(id).contains_key(other) == before.contains_key(other) && (
        before.contains_key(other) ==> before.remove(id)[other] == before[other])),
{
}

} // verus!
