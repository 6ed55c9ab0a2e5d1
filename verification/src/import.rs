//! Reading the books of an exported shelf: what a missing or unreadable part
//! of an exported book becomes.

use vstd::prelude::*;
use crate::common::text::opt_string_view;
use crate::common::types::{format_of_name, store_of_name, BookFormat, BookStore};
use crate::domain::entity::author::AuthorId;
use crate::domain::entity::book::{
    isbn_shape, isbn_shape_text, priority_range_text, Book, BookId,
    BookTitle, Isbn, OwnedFlag, Priority, ReadFlag, PRIORITY_MAX,
};
use crate::domain::entity::user::empty_value_text;
use crate::domain::error::{DomainError, DomainErrorView};

verus! {

/// The priority of an exported book that names none.
pub const DEFAULT_PRIORITY: i32 = 50;

/// A book as an export holds it; every part but the title may be missing.
#[derive(Debug, Clone)]
pub struct BackupBook {
    pub title: String,
    pub isbn: Option<String>,
    pub read: Option<bool>,
    pub owned: Option<bool>,
    pub priority: Option<i32>,
    pub format: Option<String>,
    pub store: Option<String>,
}

/// The format an exported name stands for: a missing or unknown name is
/// `Unknown`.
pub open spec fn format_or_unknown(name: Option<Seq<char>>) -> BookFormat {
    match name {
        Some(text) => match format_of_name(text) {
            Some(format) => format,
            None => BookFormat::Unknown,
        },
        None => BookFormat::Unknown,
    }
}

/// The store an exported name stands for: a missing or unknown name is
/// `Unknown`.
pub open spec fn store_or_unknown(name: Option<Seq<char>>) -> BookStore {
    match name {
        Some(text) => match store_of_name(text) {
            Some(store) => store,
            None => BookStore::Unknown,
        },
        None => BookStore::Unknown,
    }
}

/// Reads an exported format. An unknown name is reported by its message and
/// read as `Unknown`.
pub fn read_format(name: &Option<String>) -> (r: (BookFormat, Option<String>))
    ensures
        r.0 == format_or_unknown(opt_string_view(*name)),
        match *name {
            Some(text) => match format_of_name(text@) {
                Some(_) => r.1 is None,
                None => r.1 matches Some(message) && message@ == text@ + " is not valid format"@,
            },
            None => r.1 is None,
        },
{
    match name {
        None => (BookFormat::Unknown, None),
        Some(text) => match BookFormat::try_from(text.as_str()) {
            Ok(format) => (format, None),
            Err(error) => (BookFormat::Unknown, Some(error.to_string())),
        },
    }
}

/// Reads an exported store. An unknown name is reported by its message and
/// read as `Unknown`.
pub fn read_store(name: &Option<String>) -> (r: (BookStore, Option<String>))
    ensures
        r.0 == store_or_unknown(opt_string_view(*name)),
        match *name {
            Some(text) => match store_of_name(text@) {
                Some(_) => r.1 is None,
                None => r.1 matches Some(message) && message@ == text@ + " is not valid store"@,
            },
            None => r.1 is None,
        },
{
    match name {
        None => (BookStore::Unknown, None),
        Some(text) => match BookStore::try_from(text.as_str()) {
            Ok(store) => (store, None),
            Err(error) => (BookStore::Unknown, Some(error.to_string())),
        },
    }
}

/// The ISBN of an exported book: empty where the export names none.
pub open spec fn isbn_or_empty(isbn: Option<Seq<char>>) -> Seq<char> {
    match isbn {
        Some(text) => text,
        None => Seq::empty(),
    }
}

/// The priority of an exported book: [`DEFAULT_PRIORITY`] where the export
/// names none.
pub open spec fn priority_or_default(priority: Option<i32>) -> int {
    match priority {
        Some(value) => value as int,
        None => DEFAULT_PRIORITY as int,
    }
}

/// Why an exported book is refused, if it is: the title is examined first,
/// then the ISBN and the priority.
pub open spec fn backup_rejection(title: Seq<char>, isbn: Seq<char>, priority: int) -> Option<
    DomainErrorView,
> {
    if title.len() == 0 {
        Some(DomainErrorView::Validation(empty_value_text()))
    } else {
        if !isbn_shape(isbn) {
            Some(DomainErrorView::Validation(isbn_shape_text()))
        } else if 0 <= priority <= PRIORITY_MAX {
            None
        } else {
            Some(DomainErrorView::Validation(priority_range_text()))
        }
    }
}

/// The book of an exported one, under a fresh identifier and with the authors
/// and times found for it. Missing parts take their defaults: no ISBN, not
/// read, not owned, priority 50. Format and store are given as read by
/// [`read_format`] and [`read_store`].
pub fn book_from_backup(
    uuid: u128,
    book: BackupBook,
    author_ids: Vec<AuthorId>,
    format: BookFormat,
    store: BookStore,
    created_at: time::OffsetDateTime,
    updated_at: time::OffsetDateTime,
) -> (r: Result<Book, DomainError>)
    ensures
        match backup_rejection(
            book.title@,
            isbn_or_empty(opt_string_view(book.isbn)),
            priority_or_default(book.priority),
        ) {
            Some(error) => r matches Err(e) && e@ == error,
            None => r matches Ok(built) && ({
                let b = built.parts();
                &&& b.id@ == uuid
                &&& b.title@ == book.title@
                &&& b.author_ids == author_ids
                &&& b.isbn@ == isbn_or_empty(opt_string_view(book.isbn))
                &&& b.read@ == (book.read == Some(true))
                &&& b.owned@ == (book.owned == Some(true))
                &&& b.priority@ == priority_or_default(book.priority)
                &&& b.format == format
                &&& b.store == store
                &&& b.created_at == created_at
                &&& b.updated_at == updated_at
            }),
        },
{
    let id = match BookId::new(uuid) {
        Ok(id) => id,
        Err(error) => {
            return Err(error);
        },
    };
    let title = match BookTitle::new(book.title) {
        Ok(title) => title,
        Err(error) => {
            return Err(error);
        },
    };
    let isbn_text = match book.isbn {
        Some(text) => text,
        None => String::new(),
    };
    let isbn = match Isbn::new(isbn_text) {
        Ok(isbn) => isbn,
        Err(error) => {
            return Err(error);
        },
    };
    let read = match book.read {
        Some(value) => value,
        None => false,
    };
    let owned = match book.owned {
        Some(value) => value,
        None => false,
    };
    let priority_value = match book.priority {
        Some(value) => value,
        None => DEFAULT_PRIORITY,
    };
    let priority = match Priority::new(priority_value) {
        Ok(priority) => priority,
        Err(error) => {
            return Err(error);
        },
    };
    Book::new(
        id,
        title,
        author_ids,
        isbn,
        ReadFlag::new(read),
        OwnedFlag::new(owned),
        priority,
        format,
        store,
        created_at,
        updated_at,
    )
}

} // verus!
