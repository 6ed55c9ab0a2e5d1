//! Users as the use cases hand them out.

use vstd::prelude::*;
use crate::domain::entity::user::User;

verus! {

/// A user, in plain values.
#[derive(Debug, Clone)]
pub struct UserDto {
    pub id: String,
}

impl UserDto {
    pub fn new(id: String) -> (dto: UserDto)
        ensures
            dto.id == id,
    {
        UserDto { id }
    }

    pub fn from(user: User) -> (dto: UserDto)
        ensures
            dto.id@ == user.id@,
    {
        UserDto::new(user.id.into_string())
    }
}

} // verus!
