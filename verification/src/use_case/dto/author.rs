//! Authors as the use cases hand them out and take them in.

use vstd::prelude::*;
use crate::common::identifier::uuid_text;
use crate::domain::entity::author::Author;

verus! {

/// An author, in plain values.
#[derive(Debug, Clone)]
pub struct AuthorDto {
    pub id: String,
    pub name: String,
}

impl AuthorDto {
    /// The identifier in its hyphenated form, and the name.
    pub fn of(author: &Author) -> (dto: AuthorDto)
        ensures
            dto.id@ == uuid_text(author.spec_id()@),
            dto.name@ == author.spec_name()@,
    {
        AuthorDto { id: author.id().to_string(), name: author.name().as_str().to_string() }
    }

    /// The identifier in its hyphenated form, and the name.
    pub fn from(author: Author) -> (dto: AuthorDto)
        ensures
            dto.id@ == uuid_text(author.spec_id()@),
            dto.name@ == author.spec_name()@,
    {
        let parts = author.destructure();
        AuthorDto { id: parts.id.to_string(), name: parts.name.into_string() }
    }
}

/// What is needed to create an author.
#[derive(Debug, Clone)]
pub struct CreateAuthorDto {
    pub name: String,
}

impl CreateAuthorDto {
    pub fn new(name: String) -> (dto: CreateAuthorDto)
        ensures
            dto.name == name,
    {
        CreateAuthorDto { name }
    }
}

} // verus!
