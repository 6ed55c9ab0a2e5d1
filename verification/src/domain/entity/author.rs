//! The author of a book.

use vstd::prelude::*;
use crate::common::identifier::{identifier_of, read_identifier, uuid_of_text, uuid_text, write_identifier};
use crate::domain::entity::user::{empty_value_error, empty_value_text};
use crate::domain::error::DomainError;

verus! {

/// Identifier of an author: a UUID, held as its 128-bit value.
#[derive(Debug, Clone, Copy, PartialEq, Eq, Hash, Structural)]
pub struct AuthorId {
    id: u128,
}

impl View for AuthorId {
    type V = u128;

    closed spec fn view(&self) -> u128 {
        self.id
    }
}

impl AuthorId {
    pub fn new(id: u128) -> (author_id: AuthorId)
        ensures
            author_id@ == id,
    {
        AuthorId { id }
    }

    pub fn to_uuid(&self) -> (id: u128)
        ensures
            id == self@,
    {
        self.id
    }

    /// The hyphenated form. Reading it yields this identifier again.
    pub fn to_string(&self) -> (text: String)
        ensures
            text@ == uuid_text(self@),
            identifier_of(text@, uuid_of_text(text@)) == Ok::<u128, Seq<char>>(self@),
    {
        write_identifier(self.id)
    }

    /// Reads an identifier. Text that is no UUID is a validation error whose
    /// message quotes the text.
    pub fn try_from(value: &str) -> (r: Result<AuthorId, DomainError>)
        ensures
            match identifier_of(value@, uuid_of_text(value@)) {
                Ok(id) => r matches Ok(author_id) && author_id@ == id,
                Err(text) => r matches Err(DomainError::Validation(t)) && t@ == text,
            },
    {
        match read_identifier(value) {
            Ok(id) => Ok(AuthorId { id }),
            Err(text) => Err(DomainError::Validation(text)),
        }
    }

    pub fn from(uuid: u128) -> (author_id: AuthorId)
        ensures
            author_id@ == uuid,
    {
        AuthorId { id: uuid }
    }
}

/// Name of an author, never empty.
#[derive(Debug, Clone)]
pub struct AuthorName {
    value: String,
}

impl View for AuthorName {
    type V = Seq<char>;

    closed spec fn view(&self) -> Seq<char> {
        self.value@
    }
}

impl AuthorName {
    /// Accepts every text of at least one character.
    pub fn new(id: String) -> (r: Result<AuthorName, DomainError>)
        ensures
            id@.len() >= 1 ==> (r matches Ok(name) && name@ == id@),
            id@.len() == 0 ==> (r matches Err(DomainError::Validation(text)) && text@
                == empty_value_text()),
    {
        if id.as_str().is_empty() {
            Err(empty_value_error())
        } else {
            Ok(AuthorName { value: id })
        }
    }

    pub fn as_str(&self) -> (text: &str)
        ensures
            text@ == self@,
    {
        self.value.as_str()
    }

    pub fn into_string(self) -> (text: String)
        ensures
            text@ == self@,
    {
        self.value
    }
}

/// An author.
#[derive(Debug, Clone)]
pub struct Author {
    id: AuthorId,
    name: AuthorName,
}

/// The parts of an author, for taking apart.
#[derive(Debug, Clone)]
pub struct DestructureAuthor {
    pub id: AuthorId,
    pub name: AuthorName,
}

impl Author {
    pub closed spec fn spec_id(&self) -> AuthorId {
        self.id
    }

    pub closed spec fn spec_name(&self) -> AuthorName {
        self.name
    }

    /// Never fails: both parts are valid by their types.
    pub fn new(id: AuthorId, name: AuthorName) -> (r: Result<Author, DomainError>)
        ensures
            r matches Ok(author) && author.spec_id() == id && author.spec_name() == name,
    {
        Ok(Author { id, name })
    }

    pub fn id(&self) -> (id: &AuthorId)
        ensures
            *id == self.spec_id(),
    {
        &self.id
    }

    pub fn name(&self) -> (name: &AuthorName)
        ensures
            *name == self.spec_name(),
    {
        &self.name
    }

    pub fn destructure(self) -> (parts: DestructureAuthor)
        ensures
            parts.id == self.spec_id(),
            parts.name == self.spec_name(),
    {
        DestructureAuthor { id: self.id, name: self.name }
    }
}

} // verus!
