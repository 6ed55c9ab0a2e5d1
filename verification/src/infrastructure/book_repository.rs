//! Books as storage holds them, and what the number of changed rows means.

use vstd::prelude::*;
use crate::common::types::{format_of_name, store_of_name};
use crate::domain::entity::author::AuthorId;
use crate::domain::entity::book::{
    bad_format_text, bad_store_text, isbn_shape, isbn_shape_text,
    parse_book_format, parse_book_store, priority_range_text, Book, BookId, BookTitle, Isbn,
    OwnedFlag, Priority, ReadFlag, PRIORITY_MAX,
};
use crate::domain::entity::user::empty_value_text;
use crate::domain::error::{DomainError, DomainErrorView};

verus! {

/// A stored book with the identifiers of its authors; `None` where it has
/// no author.
#[derive(Debug, Clone)]
pub struct BookRow {
    pub id: u128,
    pub title: String,
    pub author_ids: Option<Vec<u128>>,
    pub isbn: String,
    pub read: bool,
    pub owned: bool,
    pub priority: i32,
    pub format: String,
    pub store: String,
    pub created_at: time::OffsetDateTime,
    pub updated_at: time::OffsetDateTime,
}

/// The identifiers of the authors of a stored book.
pub open spec fn row_author_ids(author_ids: Option<Vec<u128>>) -> Seq<u128> {
    match author_ids {
        Some(ids) => ids@,
        None => Seq::empty(),
    }
}

/// The identifiers of the authors of a stored book, as author identifiers.
pub fn author_ids_of_row(author_ids: Option<Vec<u128>>) -> (ids: Vec<AuthorId>)
    ensures
        ids@.len() == row_author_ids(author_ids).len(),
        forall|i: int| 0 <= i < ids@.len() ==> (#[trigger] ids@[i])@ == row_author_ids(author_ids)[i],
{
    let mut ids: Vec<AuthorId> = Vec::new();
    match author_ids {
        None => {},
        Some(values) => {
            let mut i: usize = 0;
            while i < values.len()
                invariant
                    i <= values.len(),
                    ids@.len() == i,
                    forall|j: int| 0 <= j < i ==> (#[trigger] ids@[j])@ == values@[j],
                decreases values.len() - i,
            {
                ids.push(AuthorId::new(values[i]));
                i = i + 1;
            }
        },
    }
    ids
}

/// Why a stored book is refused, if it is: title, ISBN, priority, format and
/// store are examined in that order.
pub open spec fn row_rejection(
    title: Seq<char>,
    isbn: Seq<char>,
    priority: int,
    format: Seq<char>,
    store: Seq<char>,
) -> Option<DomainErrorView> {
    if title.len() == 0 {
        Some(DomainErrorView::Validation(empty_value_text()))
    } else {
        if !isbn_shape(isbn) {
            Some(DomainErrorView::Validation(isbn_shape_text()))
        } else if !(0 <= priority <= PRIORITY_MAX) {
            Some(DomainErrorView::Validation(priority_range_text()))
        } else if format_of_name(format) is None {
            Some(DomainErrorView::Validation(bad_format_text(format)))
        } else if store_of_name(store) is None {
            Some(DomainErrorView::Validation(bad_store_text(store)))
        } else {
            None
        }
    }
}

/// The book of a stored row. Stored values are held to the same rules as new
/// ones; the row is refused exactly where [`row_rejection`] says so.
pub fn book_from_row(row: BookRow) -> (r: Result<Book, DomainError>)
    ensures
        match row_rejection(row.title@, row.isbn@, row.priority as int, row.format@, row.store@) {
            Some(error) => r matches Err(e) && e@ == error,
            None => r matches Ok(book) && ({
                let b = book.parts();
                &&& b.id@ == row.id
                &&& b.title@ == row.title@
                &&& b.author_ids@.len() == row_author_ids(row.author_ids).len()
                &&& forall|i: int|
                    0 <= i < b.author_ids@.len() ==> (#[trigger] b.author_ids@[i])@
                        == row_author_ids(row.author_ids)[i]
                &&& b.isbn@ == row.isbn@
                &&& b.read@ == row.read
                &&& b.owned@ == row.owned
                &&& b.priority@ == row.priority
                &&& Some(b.format) == format_of_name(row.format@)
                &&& Some(b.store) == store_of_name(row.store@)
                &&& b.created_at == row.created_at
                &&& b.updated_at == row.updated_at
            }),
        },
{
    let book_id = match BookId::new(row.id) {
        Ok(id) => id,
        Err(error) => {
            return Err(error);
        },
    };
    let title = match BookTitle::new(row.title) {
        Ok(title) => title,
        Err(error) => {
            return Err(error);
        },
    };
    let author_ids = author_ids_of_row(row.author_ids);
    let isbn = match Isbn::new(row.isbn) {
        Ok(isbn) => isbn,
        Err(error) => {
            return Err(error);
        },
    };
    let read = ReadFlag::new(row.read);
    let owned = OwnedFlag::new(row.owned);
    let priority = match Priority::new(row.priority) {
        Ok(priority) => priority,
        Err(error) => {
            return Err(error);
        },
    };
    let format = match parse_book_format(row.format.as_str()) {
        Ok(format) => format,
        Err(error) => {
            return Err(error);
        },
    };
    let store = match parse_book_store(row.store.as_str()) {
        Ok(store) => store,
        Err(error) => {
            return Err(error);
        },
    };
    Book::new(
        book_id,
        title,
        author_ids,
        isbn,
        read,
        owned,
        priority,
        format,
        store,
        row.created_at,
        row.updated_at,
    )
}

/// Text of the failure when a statement changed more than one book.
pub open spec fn many_rows_text() -> Seq<char> {
    "rows_affected is greater than 1."@
}

/// What the number of rows that a change or removal of one book touched
/// means: none, the book is not the user's; one, done; more, storage is
/// broken.
pub fn check_rows_affected(rows_affected: u64, book_id: &BookId, user_id: &str) -> (r: Result<
    (),
    DomainError,
>)
    ensures
        rows_affected == 1 ==> r is Ok,
        rows_affected == 0 ==> (r matches Err(e) && e@ == (DomainErrorView::NotFound {
            entity_type: "book"@,
            entity_id: crate::common::identifier::uuid_text(book_id@),
            user_id: user_id@,
        })),
        rows_affected > 1 ==> (r matches Err(e) && e@ == DomainErrorView::Unexpected(
            many_rows_text(),
        )),
{
    if rows_affected == 0 {
        Err(
            DomainError::NotFound {
                entity_type: "book",
                entity_id: book_id.to_string(),
                user_id: user_id.to_string(),
            },
        )
    } else if rows_affected == 1 {
        Ok(())
    } else {
        Err(DomainError::Unexpected("rows_affected is greater than 1.".to_string()))
    }
}

} // verus!
