//! Creating and changing a book.

use vstd::prelude::*;
use crate::common::identifier::{identifier_of, uuid_of_text};
use crate::common::text::strings_view;
use crate::domain::entity::book::{
    Book, BookId, BookTitle, DestructureBook, Isbn, OwnedFlag, Priority, ReadFlag,
};
use crate::domain::entity::user::{empty_value_text, UserId};
use crate::use_case::dto::book::{
    create_rejection, detail_rejection, id_rejection, ids_read, ids_value, parse_author_ids,
    CreateBookDto, TimeInfo, UpdateBookDto,
};
use crate::use_case::error::{lift, UseCaseError, UseCaseErrorView};
use crate::use_case::interactor::user::parse_user_id;

verus! {

/// Creates books in a repository.
pub struct CreateBookInteractor<BR> {
    book_repository: BR,
}

impl<BR> CreateBookInteractor<BR> {
    /// The repository the interactor writes to.
    pub closed spec fn repository(&self) -> BR {
        self.book_repository
    }

    pub fn new(book_repository: BR) -> (interactor: Self)
        ensures
            interactor.repository() == book_repository,
    {
        Self { book_repository }
    }

    pub fn book_repository(&self) -> (repository: &BR)
        ensures
            *repository == self.repository(),
    {
        &self.book_repository
    }

    /// The book to store for what a client sent, under a fresh identifier
    /// and the current time. An empty user identifier is rejected first; the
    /// rest is decided as [`Book::try_from`] decides it.
    pub fn book_to_create(
        user_id: &str,
        uuid: u128,
        book_data: CreateBookDto,
        time_info: TimeInfo,
    ) -> (r: Result<(UserId, Book), UseCaseError>)
        ensures
            user_id@.len() == 0 ==> (r matches Err(e) && e@ == UseCaseErrorView::Validation(
                empty_value_text(),
            )),
            user_id@.len() >= 1 ==> match create_rejection(
                book_data.title@,
                strings_view(book_data.author_ids@),
                book_data.isbn@,
                book_data.priority as int,
            ) {
                Some(error) => r matches Err(e) && e@ == error,
                None => r matches Ok(pair) && pair.0@ == user_id@ && ({
                    let b = pair.1.parts();
                    &&& b.id@ == uuid
                    &&& b.title@ == book_data.title@
                    &&& ids_value(b.author_ids@) == ids_read(strings_view(book_data.author_ids@))
                    &&& b.isbn@ == book_data.isbn@
                    &&& b.read@ == book_data.read
                    &&& b.owned@ == book_data.owned
                    &&& b.priority@ == book_data.priority
                    &&& b.format == book_data.format
                    &&& b.store == book_data.store
                    &&& b.created_at == time_info.created_at
                    &&& b.updated_at == time_info.updated_at
                }),
            },
    {
        let user_id = match parse_user_id(user_id) {
            Ok(id) => id,
            Err(error) => {
                return Err(error);
            },
        };
        match Book::try_from((uuid, book_data, time_info)) {
            Ok(book) => Ok((user_id, book)),
            Err(error) => Err(error),
        }
    }
}

/// The rejection of the new parts of a book, if they are rejected: the title
/// is examined first, then the author identifiers, the ISBN and the priority.
pub open spec fn update_rejection(
    title: Seq<char>,
    author_ids: Seq<Seq<char>>,
    isbn: Seq<char>,
    priority: int,
) -> Option<UseCaseErrorView> {
    if title.len() == 0 {
        Some(UseCaseErrorView::Validation(empty_value_text()))
    } else {
        match id_rejection(author_ids) {
            Some(text) => Some(UseCaseErrorView::Validation(text)),
            None => detail_rejection(isbn, priority),
        }
    }
}

/// Changes books in a repository.
pub struct UpdateBookInteractor<BR> {
    book_repository: BR,
}

impl<BR> UpdateBookInteractor<BR> {
    /// The repository the interactor writes to.
    pub closed spec fn repository(&self) -> BR {
        self.book_repository
    }

    pub fn new(book_repository: BR) -> (interactor: Self)
        ensures
            interactor.repository() == book_repository,
    {
        Self { book_repository }
    }

    pub fn book_repository(&self) -> (repository: &BR)
        ensures
            *repository == self.repository(),
    {
        &self.book_repository
    }

    /// Whose book is to be changed, and which: an empty user identifier is
    /// rejected first, then a book identifier that is no UUID.
    pub fn book_to_find(user_id: &str, book_id: &str) -> (r: Result<(UserId, BookId), UseCaseError>)
        ensures
            user_id@.len() == 0 ==> (r matches Err(e) && e@ == UseCaseErrorView::Validation(
                empty_value_text(),
            )),
            user_id@.len() >= 1 ==> match identifier_of(book_id@, uuid_of_text(book_id@)) {
                Ok(id) => r matches Ok(pair) && pair.0@ == user_id@ && pair.1@ == id,
                Err(text) => r matches Err(e) && e@ == UseCaseErrorView::Validation(text),
            },
    {
        let user_id = match parse_user_id(user_id) {
            Ok(id) => id,
            Err(error) => {
                return Err(error);
            },
        };
        match BookId::try_from(book_id) {
            Ok(id) => Ok((user_id, id)),
            Err(error) => Err(lift(error)),
        }
    }

    /// The book as it is to be stored: `found` with every part but its
    /// identifier and its times replaced by what the client sent. A book that
    /// was not found is reported as such, before anything is examined.
    pub fn updated_book(found: Option<Book>, user_id: UserId, book_data: UpdateBookDto) -> (r: Result<
        Book,
        UseCaseError,
    >)
        ensures
            match found {
                None => r matches Err(e) && e@ == (UseCaseErrorView::NotFound {
                    entity_type: "book"@,
                    entity_id: book_data.id@,
                    user_id: user_id@,
                }),
                Some(old_book) => match update_rejection(
                    book_data.title@,
                    strings_view(book_data.author_ids@),
                    book_data.isbn@,
                    book_data.priority as int,
                ) {
                    Some(error) => r matches Err(e) && e@ == error,
                    None => r matches Ok(book) && ({
                        let b = book.parts();
                        &&& b.id == old_book.parts().id
                        &&& b.title@ == book_data.title@
                        &&& ids_value(b.author_ids@) == ids_read(
                            strings_view(book_data.author_ids@),
                        )
                        &&& b.isbn@ == book_data.isbn@
                        &&& b.read@ == book_data.read
                        &&& b.owned@ == book_data.owned
                        &&& b.priority@ == book_data.priority
                        &&& b.format == book_data.format
                        &&& b.store == book_data.store
                        &&& b.created_at == old_book.parts().created_at
                        &&& b.updated_at == old_book.parts().updated_at
                    }),
                },
            },
    {
        let mut book = match found {
            Some(book) => book,
            None => {
                return Err(
                    UseCaseError::NotFound {
                        entity_type: "book",
                        entity_id: book_data.id,
                        user_id: user_id.into_string(),
                    },
                );
            },
        };
        let title = match BookTitle::new(book_data.title) {
            Ok(title) => title,
            Err(error) => {
                return Err(lift(error));
            },
        };
        let author_ids = match parse_author_ids(&book_data.author_ids) {
            Ok(ids) => ids,
            Err(error) => {
                return Err(lift(error));
            },
        };
        let isbn = match Isbn::new(book_data.isbn) {
            Ok(isbn) => isbn,
            Err(error) => {
                return Err(lift(error));
            },
        };
        let priority = match Priority::new(book_data.priority) {
            Ok(priority) => priority,
            Err(error) => {
                return Err(lift(error));
            },
        };
        book.set_title(title);
        book.set_author_ids(author_ids);
        book.set_isbn(isbn);
        book.set_read(ReadFlag::new(book_data.read));
        book.set_owned(OwnedFlag::new(book_data.owned));
        book.set_priority(priority);
        book.set_format(book_data.format);
        book.set_store(book_data.store);
        Ok(book)
    }
}

} // verus!
