//! The user-creation endpoint's data.
use vstd::prelude::*;

verus! {

/// The identifier every created user gets.
pub const USER_ID: u64 = 1337;

/// The body of a user-creation request.
pub struct CreateUser {
    pub username: String,
}

/// A created user.
pub struct User {
    pub id: u64,
    pub username: String,
}

/// The user that a creation request makes: the fixed identifier and the
/// requested name.
pub fn create_user(payload: CreateUser) -> (r: User)
    ensures
        r.id == USER_ID,
        r.username@ == payload.username@,
{
    User { id: USER_ID, username: payload.username }
}

} // verus!
