//! Stored user records.

use vstd::prelude::*;

verus! {

/// Calendar date and time without a time zone, as the database stores it.
#[verifier::external_type_specification]
#[verifier::external_body]
pub struct ExNaiveDateTime(chrono::NaiveDateTime);

/// A user record as stored.
///
/// Holds the password hash: it is never rendered as is (see `OutputUser`).
pub struct User {
    pub id: i32,
    pub email: String,
    pub name: String,
    pub hashed_password: String,
    pub created_at: chrono::NaiveDateTime,
    pub updated_at: chrono::NaiveDateTime,
}

/// A user record to be stored.
pub struct NewUser {
    pub email: String,
    pub name: String,
    pub hashed_password: String,
}

} // verus!
