//! Request handling logic: registration, token issue, user listing.

pub mod auth;
pub mod user;
pub mod users;

use crate::models::User;
use vstd::prelude::*;

verus! {

/// User data as rendered in API answers: the stored record without the
/// password hash and the update time.
pub struct OutputUser {
    pub id: i32,
    pub email: String,
    pub name: String,
    pub created_at: chrono::NaiveDateTime,
}

/// The rendering of a stored user.
pub open spec fn output_of(user: User) -> OutputUser {
    OutputUser { id: user.id, email: user.email, name: user.name, created_at: user.created_at }
}

impl From<User> for OutputUser {
    fn from(user: User) -> (r: Self) {
        OutputUser { id: user.id, email: user.email, name: user.name, created_at: user.created_at }
    }
}

impl vstd::std_specs::convert::FromSpecImpl<User> for OutputUser {
    open spec fn obeys_from_spec() -> bool {
        true
    }

    open spec fn from_spec(user: User) -> Self {
        output_of(user)
    }
}

} // verus!
