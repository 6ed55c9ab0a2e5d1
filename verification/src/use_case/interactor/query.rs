//! Reading the shelf.

use vstd::prelude::*;
use crate::common::identifier::{identifier_of, uuid_of_text, uuid_text};
use crate::common::text::strings_view;
use crate::domain::entity::author::{Author, AuthorId};
use crate::domain::entity::book::Book;
use crate::domain::entity::user::{empty_value_text, User, UserId};
use crate::use_case::dto::author::AuthorDto;
use crate::use_case::dto::book::{
    id_rejection, ids_read, ids_value, is_dto_of, parse_author_ids, BookDto,
};
use crate::use_case::dto::user::UserDto;
use crate::use_case::error::{lift, UseCaseError, UseCaseErrorView};
use crate::use_case::interactor::user::parse_user_id;

verus! {

/// Answers queries from three repositories.
#[derive(Debug, Clone)]
pub struct QueryInteractor<UR, BR, AR> {
    pub user_repository: UR,
    pub book_repository: BR,
    pub author_repository: AR,
}

/// What is handed back for a user that was looked up.
pub fn found_user(user: Option<User>) -> (dto: Option<UserDto>)
    ensures
        match user {
            Some(u) => dto matches Some(d) && d.id@ == u.id@,
            None => dto is None,
        },
{
    match user {
        Some(user) => Some(UserDto::from(user)),
        None => None,
    }
}

/// What is handed back for an author that was looked up.
pub fn found_author(author: Option<Author>) -> (dto: Option<AuthorDto>)
    ensures
        match author {
            Some(a) => dto matches Some(d) && d.id@ == uuid_text(a.spec_id()@) && d.name@
                == a.spec_name()@,
            None => dto is None,
        },
{
    match author {
        Some(author) => Some(AuthorDto::from(author)),
        None => None,
    }
}

/// Whose author is asked for, and which: an empty user identifier is rejected
/// first, then an author identifier that is no UUID.
pub fn author_to_find(user_id: &str, author_id: &str) -> (r: Result<(UserId, AuthorId), UseCaseError>)
    ensures
        user_id@.len() == 0 ==> (r matches Err(e) && e@ == UseCaseErrorView::Validation(
            empty_value_text(),
        )),
        user_id@.len() >= 1 ==> match identifier_of(author_id@, uuid_of_text(author_id@)) {
            Ok(id) => r matches Ok(pair) && pair.0@ == user_id@ && pair.1@ == id,
            Err(text) => r matches Err(e) && e@ == UseCaseErrorView::Validation(text),
        },
{
    let user_id = match parse_user_id(user_id) {
        Ok(id) => id,
        Err(error) => {
            return Err(error);
        },
    };
    match AuthorId::try_from(author_id) {
        Ok(id) => Ok((user_id, id)),
        Err(error) => Err(lift(error)),
    }
}

/// Whose authors are asked for, and which: an empty user identifier is
/// rejected first, then the first author identifier that is no UUID.
pub fn authors_to_find(user_id: &str, author_ids: &Vec<String>) -> (r: Result<
    (UserId, Vec<AuthorId>),
    UseCaseError,
>)
    ensures
        user_id@.len() == 0 ==> (r matches Err(e) && e@ == UseCaseErrorView::Validation(
            empty_value_text(),
        )),
        user_id@.len() >= 1 ==> match id_rejection(strings_view(author_ids@)) {
            Some(text) => r matches Err(e) && e@ == UseCaseErrorView::Validation(text),
            None => r matches Ok(pair) && pair.0@ == user_id@ && ids_value(pair.1@) == ids_read(
                strings_view(author_ids@),
            ),
        },
{
    let user_id = match parse_user_id(user_id) {
        Ok(id) => id,
        Err(error) => {
            return Err(error);
        },
    };
    match parse_author_ids(author_ids) {
        Ok(ids) => Ok((user_id, ids)),
        Err(error) => Err(lift(error)),
    }
}

/// The books of a user in plain values, in the order they were found.
pub fn found_books(books: &Vec<Book>) -> (dtos: Vec<BookDto>)
    ensures
        dtos@.len() == books@.len(),
        forall|i: int| 0 <= i < books@.len() ==> is_dto_of(#[trigger] dtos@[i], books@[i].parts()),
{
    let mut dtos: Vec<BookDto> = Vec::new();
    let mut i: usize = 0;
    while i < books.len()
        invariant
            i <= books.len(),
            dtos@.len() == i,
            forall|j: int| 0 <= j < i ==> is_dto_of(#[trigger] dtos@[j], books@[j].parts()),
        decreases books.len() - i,
    {
        dtos.push(BookDto::of(&books[i]));
        i = i + 1;
    }
    dtos
}

/// The authors of a user in plain values, in the order they were found.
pub fn found_authors(authors: &Vec<Author>) -> (dtos: Vec<AuthorDto>)
    ensures
        dtos@.len() == authors@.len(),
        forall|i: int|
            0 <= i < authors@.len() ==> (#[trigger] dtos@[i]).id@ == uuid_text(
                authors@[i].spec_id()@,
            ) && dtos@[i].name@ == authors@[i].spec_name()@,
{
    let mut dtos: Vec<AuthorDto> = Vec::new();
    let mut i: usize = 0;
    while i < authors.len()
        invariant
            i <= authors.len(),
            dtos@.len() == i,
            forall|j: int|
                0 <= j < i ==> (#[trigger] dtos@[j]).id@ == uuid_text(authors@[j].spec_id()@)
                    && dtos@[j].name@ == authors@[j].spec_name()@,
        decreases authors.len() - i,
    {
        dtos.push(AuthorDto::of(&authors[i]));
        i = i + 1;
    }
    dtos
}

} // verus!
