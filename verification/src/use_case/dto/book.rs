//! Books as the use cases hand them out and take them in.

use vstd::prelude::*;
use crate::common::identifier::{bad_uuid_text, uuid_of_text, uuid_text};
use crate::common::text::strings_view;
use crate::common::types::{BookFormat, BookStore};
use crate::domain::entity::author::AuthorId;
use crate::domain::entity::book::{
    isbn_shape, isbn_shape_text, priority_range_text, Book, BookId,
    BookTitle, DestructureBook, Isbn, OwnedFlag, Priority, ReadFlag, PRIORITY_MAX,
};
use crate::domain::entity::user::empty_value_text;
use crate::domain::error::DomainError;
use crate::use_case::error::{lift, UseCaseError, UseCaseErrorView};

verus! {

/// A book, in plain values.
#[derive(Debug, Clone)]
pub struct BookDto {
    pub id: String,
    pub title: String,
    pub author_ids: Vec<String>,
    pub isbn: String,
    pub read: bool,
    pub owned: bool,
    pub priority: i32,
    pub format: BookFormat,
    pub store: BookStore,
    pub created_at: time::OffsetDateTime,
    pub updated_at: time::OffsetDateTime,
}

/// The hyphenated forms of a list of author identifiers.
pub open spec fn ids_text(ids: Seq<AuthorId>) -> Seq<Seq<char>> {
    ids.map_values(|id: AuthorId| uuid_text(id@))
}

/// The values of a list of author identifiers.
pub open spec fn ids_value(ids: Seq<AuthorId>) -> Seq<u128> {
    ids.map_values(|id: AuthorId| id@)
}

/// Writes out a list of author identifiers.
pub fn author_ids_to_strings(ids: &Vec<AuthorId>) -> (texts: Vec<String>)
    ensures
        strings_view(texts@) == ids_text(ids@),
{
    let mut texts: Vec<String> = Vec::new();
    let mut i: usize = 0;
    while i < ids.len()
        invariant
            i <= ids.len(),
            texts@.len() == i,
            forall|j: int| 0 <= j < i ==> (#[trigger] texts@[j])@ == uuid_text(ids@[j]@),
        decreases ids.len() - i,
    {
        texts.push(ids[i].to_string());
        i = i + 1;
    }
    assert(strings_view(texts@) =~= ids_text(ids@));
    texts
}

/// Whether `dto` is the book of `parts` in plain values: identifiers
/// hyphenated, texts, flags and times as they are.
pub open spec fn is_dto_of(dto: BookDto, parts: DestructureBook) -> bool {
    &&& dto.id@ == uuid_text(parts.id@)
    &&& dto.title@ == parts.title@
    &&& strings_view(dto.author_ids@) == ids_text(parts.author_ids@)
    &&& dto.isbn@ == parts.isbn@
    &&& dto.read == parts.read@
    &&& dto.owned == parts.owned@
    &&& dto.priority == parts.priority@
    &&& dto.format == parts.format
    &&& dto.store == parts.store
    &&& dto.created_at == parts.created_at
    &&& dto.updated_at == parts.updated_at
}

impl BookDto {
    /// The book in plain values.
    pub fn of(book: &Book) -> (dto: BookDto)
        ensures
            is_dto_of(dto, book.parts()),
    {
        BookDto {
            id: book.id().to_string(),
            title: book.title().as_str().to_string(),
            author_ids: author_ids_to_strings(book.author_ids()),
            isbn: book.isbn().as_str().to_string(),
            read: book.read().to_bool(),
            owned: book.owned().to_bool(),
            priority: book.priority().to_i32(),
            format: *book.format(),
            store: *book.store(),
            created_at: *book.created_at(),
            updated_at: *book.updated_at(),
        }
    }

    /// The book in plain values.
    pub fn from(book: Book) -> (dto: BookDto)
        ensures
            is_dto_of(dto, book.parts()),
    {
        BookDto::of(&book)
    }
}

/// When a book was created and last changed.
#[derive(Debug, Clone)]
pub struct TimeInfo {
    pub created_at: time::OffsetDateTime,
    pub updated_at: time::OffsetDateTime,
}

impl TimeInfo {
    pub fn new(created_at: time::OffsetDateTime, updated_at: time::OffsetDateTime) -> (info: TimeInfo)
        ensures
            info.created_at == created_at,
            info.updated_at == updated_at,
    {
        TimeInfo { created_at, updated_at }
    }
}

/// What is needed to create a book.
#[derive(Debug, Clone)]
pub struct CreateBookDto {
    pub title: String,
    pub author_ids: Vec<String>,
    pub isbn: String,
    pub read: bool,
    pub owned: bool,
    pub priority: i32,
    pub format: BookFormat,
    pub store: BookStore,
}

impl CreateBookDto {
    pub fn new(
        title: String,
        author_ids: Vec<String>,
        isbn: String,
        read: bool,
        owned: bool,
        priority: i32,
        format: BookFormat,
        store: BookStore,
    ) -> (dto: CreateBookDto)
        ensures
            dto == (CreateBookDto { title, author_ids, isbn, read, owned, priority, format, store }),
    {
        CreateBookDto { title, author_ids, isbn, read, owned, priority, format, store }
    }
}

/// What is needed to change a book.
#[derive(Debug, Clone)]
pub struct UpdateBookDto {
    pub id: String,
    pub title: String,
    pub author_ids: Vec<String>,
    pub isbn: String,
    pub read: bool,
    pub owned: bool,
    pub priority: i32,
    pub format: BookFormat,
    pub store: BookStore,
}

impl UpdateBookDto {
    pub fn new(
        id: String,
        title: String,
        author_ids: Vec<String>,
        isbn: String,
        read: bool,
        owned: bool,
        priority: i32,
        format: BookFormat,
        store: BookStore,
    ) -> (dto: UpdateBookDto)
        ensures
            dto == (UpdateBookDto {
                id,
                title,
                author_ids,
                isbn,
                read,
                owned,
                priority,
                format,
                store,
            }),
    {
        UpdateBookDto { id, title, author_ids, isbn, read, owned, priority, format, store }
    }
}

/// Text of the rejection of the first identifier of a list that is no UUID,
/// if there is one.
pub open spec fn id_rejection(texts: Seq<Seq<char>>) -> Option<Seq<char>>
    decreases texts.len(),
{
    if texts.len() == 0 {
        None
    } else {
        match uuid_of_text(texts.first()) {
            Err(message) => Some(bad_uuid_text(texts.first(), message)),
            Ok(_) => id_rejection(texts.drop_first()),
        }
    }
}

/// The values that a list of identifiers reads as.
pub open spec fn ids_read(texts: Seq<Seq<char>>) -> Seq<u128> {
    texts.map_values(|text: Seq<char>| uuid_of_text(text)->Ok_0)
}

/// Reads a list of author identifiers, stopping at the first that is no UUID.
pub fn parse_author_ids(texts: &Vec<String>) -> (r: Result<Vec<AuthorId>, DomainError>)
    ensures
        match id_rejection(strings_view(texts@)) {
            Some(text) => r matches Err(DomainError::Validation(t)) && t@ == text,
            None => r matches Ok(ids) && ids_value(ids@) == ids_read(strings_view(texts@)),
        },
{
    let ghost all = strings_view(texts@);
    let mut ids: Vec<AuthorId> = Vec::new();
    let mut i: usize = 0;
    assert(all.skip(0) == all);
    while i < texts.len()
        invariant
            i <= texts.len(),
            all == strings_view(texts@),
            id_rejection(all) == id_rejection(all.skip(i as int)),
            ids@.len() == i,
            forall|j: int| 0 <= j < i ==> uuid_of_text(all[j]) == Ok::<u128, Seq<char>>(
                (#[trigger] ids@[j])@,
            ),
        decreases texts.len() - i,
    {
        proof {
            let rest = all.skip(i as int);
            assert(rest.first() == texts@[i as int]@);
            assert(rest.drop_first() == all.skip(i + 1));
        }
        match AuthorId::try_from(texts[i].as_str()) {
            Ok(id) => {
                ids.push(id);
            },
            Err(error) => {
                return Err(error);
            },
        }
        i = i + 1;
    }
    assert(ids_value(ids@) =~= ids_read(all));
    Ok(ids)
}

/// The rejection of the parts of a new book, if they are rejected: author
/// identifiers are read first, then the title, the ISBN and the priority.
pub open spec fn create_rejection(
    title: Seq<char>,
    author_ids: Seq<Seq<char>>,
    isbn: Seq<char>,
    priority: int,
) -> Option<UseCaseErrorView> {
    match id_rejection(author_ids) {
        Some(text) => Some(UseCaseErrorView::Validation(text)),
        None => if title.len() == 0 {
            Some(UseCaseErrorView::Validation(empty_value_text()))
        } else {
            detail_rejection(isbn, priority)
        },
    }
}

/// The rejection of an ISBN and a priority, if they are rejected.
pub open spec fn detail_rejection(isbn: Seq<char>, priority: int) -> Option<UseCaseErrorView> {
    if !isbn_shape(isbn) {
        Some(UseCaseErrorView::Validation(isbn_shape_text()))
    } else if 0 <= priority <= PRIORITY_MAX {
        None
    } else {
        Some(UseCaseErrorView::Validation(priority_range_text()))
    }
}

impl Book {
    /// Builds a new book from what a client sent, an identifier and the time.
    /// Fails exactly where [`create_rejection`] names a rejection.
    pub fn try_from(parts: (u128, CreateBookDto, TimeInfo)) -> (r: Result<Book, UseCaseError>)
        ensures
            match create_rejection(
                parts.1.title@,
                strings_view(parts.1.author_ids@),
                parts.1.isbn@,
                parts.1.priority as int,
            ) {
                Some(error) => r matches Err(e) && e@ == error,
                None => r matches Ok(book) && ({
                    let b = book.parts();
                    &&& b.id@ == parts.0
                    &&& b.title@ == parts.1.title@
                    &&& ids_value(b.author_ids@) == ids_read(strings_view(parts.1.author_ids@))
                    &&& b.isbn@ == parts.1.isbn@
                    &&& b.read@ == parts.1.read
                    &&& b.owned@ == parts.1.owned
                    &&& b.priority@ == parts.1.priority
                    &&& b.format == parts.1.format
                    &&& b.store == parts.1.store
                    &&& b.created_at == parts.2.created_at
                    &&& b.updated_at == parts.2.updated_at
                }),
            },
    {
        let (uuid, book_data, time_info) = parts;
        let author_ids = match parse_author_ids(&book_data.author_ids) {
            Ok(ids) => ids,
            Err(error) => {
                return Err(lift(error));
            },
        };
        let id = match BookId::new(uuid) {
            Ok(id) => id,
            Err(error) => {
                return Err(lift(error));
            },
        };
        let title = match BookTitle::new(book_data.title) {
            Ok(title) => title,
            Err(error) => {
                return Err(lift(error));
            },
        };
        let isbn = match Isbn::new(book_data.isbn) {
            Ok(isbn) => isbn,
            Err(error) => {
                return Err(lift(error));
            },
        };
        let priority = match Priority::new(book_data.priority) {
            Ok(priority) => priority,
            Err(error) => {
                return Err(lift(error));
            },
        };
        match Book::new(
            id,
            title,
            author_ids,
            isbn,
            ReadFlag::new(book_data.read),
            OwnedFlag::new(book_data.owned),
            priority,
            book_data.format,
            book_data.store,
            time_info.created_at,
            time_info.updated_at,
        ) {
            Ok(book) => Ok(book),
            Err(error) => Err(lift(error)),
        }
    }
}

} // verus!
