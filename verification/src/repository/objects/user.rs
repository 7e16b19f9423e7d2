//! A user row.

use vstd::prelude::*;

verus! {

/// A user as the `users` table holds it.
pub struct User {
    pub id: i32,
    pub name: String,
    pub email: String,
    pub passhash: String,
}

} // verus!
