//! User listing.

use crate::handlers::{output_of, OutputUser};
use crate::models::User;
use vstd::prelude::*;

verus! {

/// The number of records a listing answers with when the request asks for no number.
pub const DEFAULT_QUERY_LIMIT: i32 = 10;

/// Listing request: how many records at most, and the id to start after (not inclusive).
pub struct ListRequest {
    pub limit: Option<i32>,
    pub after: Option<i32>,
}

/// Listing answer.
pub struct ListResponse {
    pub users: Vec<OutputUser>,
}

/// The number of records a request asks for; the default limit when it asks for none.
pub open spec fn effective_limit(limit: Option<i32>) -> i32 {
    match limit {
        Some(l) => l,
        None => DEFAULT_QUERY_LIMIT,
    }
}

/// The id a request starts after; 0 when it gives none.
pub open spec fn effective_after(after: Option<i32>) -> i32 {
    match after {
        Some(a) => a,
        None => 0,
    }
}

/// A listing starts after the id the request gives, and after 0 when it gives none;
/// it asks for the number of records the request gives, and for 10 when it gives none.
pub proof fn listing_bounds_are_the_given_ones(limit: i32, after: i32)
    ensures
        effective_after(Some(after)) == after,
        effective_after(None) == 0,
        effective_limit(Some(limit)) == limit,
        effective_limit(None) == 10,
{
}

impl ListRequest {
    /// The number of records to load: the one asked for, and the default limit when
    /// none is asked for.
    pub fn effective_limit(&self) -> (l: i32)
        ensures
            l == effective_limit(self.limit),
            self.limit matches Some(given) ==> l == given,
            self.limit is None ==> l == 10,
    {
        match self.limit {
            Some(l) => l,
            None => DEFAULT_QUERY_LIMIT,
        }
    }

    /// The id to start after; 0 when none is given.
    pub fn effective_after(&self) -> (a: i32)
        ensures
            a == effective_after(self.after),
            self.after matches Some(given) ==> a == given,
            self.after is None ==> a == 0,
    {
        match self.after {
            Some(a) => a,
            None => 0,
        }
    }
}

impl ListResponse {
    /// The answer listing `users`, each rendered without its password hash, in
    /// the order given.
    pub fn from_users(users: Vec<User>) -> (r: ListResponse)
        ensures
            r.users@.len() == users@.len(),
            forall|i: int| 0 <= i < users@.len() ==> #[trigger] r.users@[i] == output_of(users@[i]),
    {
        let ghost input = users@;
        let mut out: Vec<OutputUser> = Vec::new();
        for user in it: users.into_iter()
            invariant
                it.seq() == input,
                out@.len() == it.index(),
                forall|j: int| 0 <= j < it.index() ==> #[trigger] out@[j] == output_of(input[j]),
        {
            out.push(OutputUser::from(user));
        }
        ListResponse { users: out }
    }
}

} // verus!
