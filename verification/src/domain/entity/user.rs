//! The user of a bookshelf.

use vstd::prelude::*;
use crate::domain::error::DomainError;

verus! {

/// Text of the rejection of an empty value.
pub open spec fn empty_value_text() -> Seq<char> {
    "value: Validation error: length"@
}

/// The rejection of an empty value.
pub fn empty_value_error() -> (error: DomainError)
    ensures
        error matches DomainError::Validation(text) && text@ == empty_value_text(),
{
    DomainError::Validation("value: Validation error: length".to_string())
}

/// Identifier of a user: the subject of the identity provider, never empty.
#[derive(Debug, Clone)]
pub struct UserId {
    value: String,
}

impl View for UserId {
    type V = Seq<char>;

    closed spec fn view(&self) -> Seq<char> {
        self.value@
    }
}

impl UserId {
    /// Accepts every text of at least one character.
    pub fn new(id: String) -> (r: Result<UserId, DomainError>)
        ensures
            id@.len() >= 1 ==> (r matches Ok(user_id) && user_id@ == id@),
            id@.len() == 0 ==> (r matches Err(DomainError::Validation(text)) && text@
                == empty_value_text()),
    {
        if id.as_str().is_empty() {
            Err(empty_value_error())
        } else {
            Ok(UserId { value: id })
        }
    }

    pub fn as_str(&self) -> (text: &str)
        ensures
            text@ == self@,
    {
        self.value.as_str()
    }

    pub fn into_string(self) -> (text: String)
        ensures
            text@ == self@,
    {
        self.value
    }
}

/// A user.
#[derive(Debug, Clone)]
pub struct User {
    pub id: UserId,
}

impl User {
    pub fn new(id: UserId) -> (user: User)
        ensures
            user.id == id,
    {
        User { id }
    }
}

} // verus!
