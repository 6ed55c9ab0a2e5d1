//! Creating an author.

use vstd::prelude::*;
use crate::domain::entity::author::{Author, AuthorId, AuthorName};
use crate::domain::entity::user::{empty_value_text, UserId};
use crate::use_case::dto::author::CreateAuthorDto;
use crate::use_case::error::{lift, UseCaseError, UseCaseErrorView};
use crate::use_case::interactor::user::parse_user_id;

verus! {

/// Creates authors in a repository.
pub struct CreateAuthorInteractor<AR> {
    author_repository: AR,
}

impl<AR> CreateAuthorInteractor<AR> {
    /// The repository the interactor writes to.
    pub closed spec fn repository(&self) -> AR {
        self.author_repository
    }

    pub fn new(author_repository: AR) -> (interactor: Self)
        ensures
            interactor.repository() == author_repository,
    {
        Self { author_repository }
    }

    pub fn author_repository(&self) -> (repository: &AR)
        ensures
            *repository == self.repository(),
    {
        &self.author_repository
    }

    /// The author to store for what a client sent, under a fresh identifier.
    /// The user identifier is examined first, then the name; either is
    /// rejected when empty.
    pub fn author_to_create(user_id: &str, uuid: u128, author_data: CreateAuthorDto) -> (r: Result<
        (UserId, Author),
        UseCaseError,
    >)
        ensures
            (user_id@.len() == 0 || author_data.name@.len() == 0) ==> (r matches Err(e) && e@
                == UseCaseErrorView::Validation(empty_value_text())),
            (user_id@.len() >= 1 && author_data.name@.len() >= 1) ==> (r matches Ok(pair)
                && pair.0@ == user_id@ && pair.1.spec_id()@ == uuid && pair.1.spec_name()@
                == author_data.name@),
    {
        let user_id = match parse_user_id(user_id) {
            Ok(id) => id,
            Err(error) => {
                return Err(error);
            },
        };
        let author_id = AuthorId::new(uuid);
        let author_name = match AuthorName::new(author_data.name) {
            Ok(name) => name,
            Err(error) => {
                return Err(lift(error));
            },
        };
        match Author::new(author_id, author_name) {
            Ok(author) => Ok((user_id, author)),
            Err(error) => Err(lift(error)),
        }
    }
}

} // verus!
