//! Users as storage holds them.

use vstd::prelude::*;
use crate::domain::entity::user::{empty_value_text, User, UserId};
use crate::domain::error::DomainError;

verus! {

/// The user of a stored row, if a row was found. A stored identifier is held
/// to the same rule as a new one.
pub fn user_from_row(id: Option<String>) -> (r: Result<Option<User>, DomainError>)
    ensures
        match id {
            None => r matches Ok(None),
            Some(text) => if text@.len() >= 1 {
                r matches Ok(Some(user)) && user.id@ == text@
            } else {
                r matches Err(DomainError::Validation(message)) && message@
                    == empty_value_text()
            },
        },
{
    match id {
        None => Ok(None),
        Some(text) => match UserId::new(text) {
            Ok(id) => Ok(Some(User::new(id))),
            Err(error) => Err(error),
        },
    }
}

} // verus!
