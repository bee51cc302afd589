//! User registration.

use crate::errors::ApiError;
use crate::models::NewUser;
use crate::password::{argon2_accepts, argon2_hash};
use vstd::prelude::*;
use vstd::utf8::encode_utf8;

verus! {

/// Registration request.
pub struct InputUser {
    pub email: String,
    pub name: String,
    pub password: String,
}

/// `new_user` is a record to store for `item`: same name and email, and a
/// password hash that verifies the password given.
pub open spec fn registers(item: InputUser, new_user: NewUser) -> bool {
    &&& new_user.email@ == item.email@
    &&& new_user.name@ == item.name@
    &&& argon2_accepts(item.password@, new_user.hashed_password@)
}

/// Builds the record to store for a registration request, hashing its password
/// with a fresh random salt.
///
/// On success the record `registers` the request; a hashing failure (only for a
/// password longer than 0xFFFFFFFF bytes) is answered with `ApiError::Argon2`.
pub fn register_single_user(item: InputUser) -> (r: Result<NewUser, ApiError>)
    ensures
        encode_utf8(item.password@).len() <= 0xFFFF_FFFF ==> r is Ok,
        match r {
            Ok(new_user) => registers(item, new_user),
            Err(e) => e is Argon2,
        },
{
    match argon2_hash(item.password.as_str()) {
        Ok(hash) => Ok(NewUser { name: item.name, email: item.email, hashed_password: hash }),
        Err(message) => Err(ApiError::Argon2 { message }),
    }
}

} // verus!
