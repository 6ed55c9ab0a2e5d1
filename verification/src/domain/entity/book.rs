//! A book on a shelf, and the rules its parts obey.

use vstd::prelude::*;
use crate::common::identifier::{identifier_of, read_identifier, uuid_of_text, uuid_text, write_identifier};
use crate::common::pattern::{is_match, pattern_match};
use crate::common::types::{format_of_name, store_of_name, BookFormat, BookStore};
use crate::domain::entity::author::AuthorId;
use crate::domain::entity::user::{empty_value_error, empty_value_text};
use crate::domain::error::DomainError;

verus! {

/// `time::OffsetDateTime`: a moment, carried from the clock or from storage
/// to storage and to the client without a look inside.
#[verifier::external_type_specification]
#[verifier::external_body]
pub struct ExOffsetDateTime(time::OffsetDateTime);

/// `Clone::clone` of `time::OffsetDateTime`, a `Copy` type whose `Clone` is
/// derived: the clone is the value itself.
pub assume_specification[ <time::OffsetDateTime as Clone>::clone ](
    value: &time::OffsetDateTime,
) -> (r: time::OffsetDateTime)
    ensures
        r == *value,
;

/// Identifier of a book: a UUID, held as its 128-bit value.
#[derive(Debug, Clone, Copy, PartialEq, Eq, Structural)]
pub struct BookId {
    id: u128,
}

impl View for BookId {
    type V = u128;

    closed spec fn view(&self) -> u128 {
        self.id
    }
}

impl BookId {
    /// Never fails: every UUID identifies a book.
    pub fn new(id: u128) -> (r: Result<BookId, DomainError>)
        ensures
            r matches Ok(book_id) && book_id@ == id,
    {
        Ok(BookId { id })
    }

    pub fn to_uuid(&self) -> (id: u128)
        ensures
            id == self@,
    {
        self.id
    }

    /// The hyphenated form. Reading it yields this identifier again.
    pub fn to_string(&self) -> (text: String)
        ensures
            text@ == uuid_text(self@),
            identifier_of(text@, uuid_of_text(text@)) == Ok::<u128, Seq<char>>(self@),
    {
        write_identifier(self.id)
    }

    /// Reads an identifier. Text that is no UUID is a validation error whose
    /// message quotes the text.
    pub fn try_from(value: &str) -> (r: Result<BookId, DomainError>)
        ensures
            match identifier_of(value@, uuid_of_text(value@)) {
                Ok(id) => r matches Ok(book_id) && book_id@ == id,
                Err(text) => r matches Err(DomainError::Validation(t)) && t@ == text,
            },
    {
        match read_identifier(value) {
            Ok(id) => Ok(BookId { id }),
            Err(text) => Err(DomainError::Validation(text)),
        }
    }
}

/// Title of a book, never empty.
#[derive(Debug, Clone)]
pub struct BookTitle {
    value: String,
}

impl View for BookTitle {
    type V = Seq<char>;

    closed spec fn view(&self) -> Seq<char> {
        self.value@
    }
}

impl BookTitle {
    /// Accepts every text of at least one character.
    pub fn new(id: String) -> (r: Result<BookTitle, DomainError>)
        ensures
            id@.len() >= 1 ==> (r matches Ok(title) && title@ == id@),
            id@.len() == 0 ==> (r matches Err(DomainError::Validation(text)) && text@
                == empty_value_text()),
    {
        if id.as_str().is_empty() {
            Err(empty_value_error())
        } else {
            Ok(BookTitle { value: id })
        }
    }

    pub fn as_str(&self) -> (text: &str)
        ensures
            text@ == self@,
    {
        self.value.as_str()
    }

    pub fn into_string(self) -> (text: String)
        ensures
            text@ == self@,
    {
        self.value
    }
}

/// The pattern that one decimal digit, and nothing else, matches.
pub open spec fn digit_pattern() -> Seq<char> {
    "^\\d$"@
}

/// Whether a character counts as a digit of an ISBN: a decimal digit as the
/// `regex` crate classes them, of any script.
pub open spec fn is_isbn_digit(c: char) -> bool {
    c != '-' && pattern_match(digit_pattern(), seq![c]) == Some(true)
}

/// The number of digits in a text.
pub open spec fn count_digits(text: Seq<char>) -> nat
    decreases text.len(),
{
    if text.len() == 0 {
        0
    } else {
        count_digits(text.drop_last()) + if is_isbn_digit(text.last()) {
            1nat
        } else {
            0nat
        }
    }
}

/// The longest an ISBN can be: thirteen digits and twelve hyphens.
pub const ISBN_MAX_LEN: usize = 25;

/// The shape of an ISBN: empty, or thirteen digits, each of the first twelve
/// optionally followed by one hyphen. That is: digits and hyphens only, a
/// digit first and last, no two hyphens in a row, and thirteen digits in all,
/// which leaves room for twenty-five characters at most.
pub open spec fn isbn_shape(text: Seq<char>) -> bool {
    text.len() == 0 || {
        &&& text.len() <= ISBN_MAX_LEN
        &&& forall|i: int| 0 <= i < text.len() ==> is_isbn_digit(#[trigger] text[i]) || text[i] == '-'
        &&& is_isbn_digit(text.first())
        &&& is_isbn_digit(text.last())
        &&& forall|i: int| 0 <= i < text.len() - 1 ==> !(#[trigger] text[i] == '-' && text[i + 1] == '-')
        &&& count_digits(text) == 13
    }
}

/// Text of the rejection of an ISBN of another shape.
pub open spec fn isbn_shape_text() -> Seq<char> {
    "value: Validation error: regex"@
}

/// Whether the character at `i` is a digit of an ISBN.
fn is_digit_at(text: &str, i: usize) -> (digit: bool)
    requires
        i < text@.len() <= ISBN_MAX_LEN,
    ensures
        digit == is_isbn_digit(text@[i as int]),
{
    if text.get_char(i) == '-' {
        return false;
    }
    let one = text.substring_char(i, i + 1);
    assert(one@ =~= seq![text@[i as int]]);
    match is_match("^\\d$", one) {
        Some(matched) => matched,
        None => false,
    }
}

/// Whether a text has the shape of an ISBN.
pub fn has_isbn_shape(text: &str) -> (shaped: bool)
    ensures
        shaped == isbn_shape(text@),
{
    let n: usize = text.unicode_len();
    if n == 0 {
        return true;
    }
    if n > ISBN_MAX_LEN {
        return false;
    }
    let mut digits: usize = 0;
    let mut after_hyphen = false;
    let mut i: usize = 0;
    assert(text@.take(0) =~= Seq::<char>::empty());
    while i < n
        invariant
            n == text@.len(),
            0 < n <= ISBN_MAX_LEN,
            i <= n,
            digits <= i,
            digits == count_digits(text@.take(i as int)),
            forall|j: int| 0 <= j < i ==> is_isbn_digit(#[trigger] text@[j]) || text@[j] == '-',
            i > 0 ==> is_isbn_digit(text@[0]),
            forall|j: int| 0 <= j < i - 1 ==> !(#[trigger] text@[j] == '-' && text@[j + 1] == '-'),
            after_hyphen == (i > 0 && text@[i - 1] == '-'),
        decreases n - i,
    {
        proof {
            let next = text@.take(i + 1);
            assert(next.drop_last() =~= text@.take(i as int));
            assert(next.last() == text@[i as int]);
        }
        if is_digit_at(text, i) {
            digits = digits + 1;
            after_hyphen = false;
        } else if text.get_char(i) == '-' {
            if i == 0 {
                return false;
            }
            if after_hyphen {
                assert(text@[i - 1] == '-' && text@[(i - 1) + 1] == '-');
                return false;
            }
            after_hyphen = true;
        } else {
            return false;
        }
        i = i + 1;
    }
    assert(text@.take(n as int) =~= text@);
    !after_hyphen && digits == 13
}

/// An ISBN; the check digit is not examined.
#[derive(Debug, Clone)]
pub struct Isbn {
    value: String,
}

impl View for Isbn {
    type V = Seq<char>;

    closed spec fn view(&self) -> Seq<char> {
        self.value@
    }
}

impl Isbn {
    /// Accepts the texts of the shape [`isbn_shape`], the empty one among
    /// them.
    pub fn new(id: String) -> (r: Result<Isbn, DomainError>)
        ensures
            isbn_shape(id@) ==> (r matches Ok(isbn) && isbn@ == id@),
            !isbn_shape(id@) ==> (r matches Err(DomainError::Validation(text)) && text@
                == isbn_shape_text()),
    {
        if has_isbn_shape(id.as_str()) {
            Ok(Isbn { value: id })
        } else {
            Err(DomainError::Validation("value: Validation error: regex".to_string()))
        }
    }

    pub fn as_str(&self) -> (text: &str)
        ensures
            text@ == self@,
    {
        self.value.as_str()
    }

    pub fn into_string(self) -> (text: String)
        ensures
            text@ == self@,
    {
        self.value
    }
}

/// Whether a book has been read.
#[derive(Debug, Clone, Copy, PartialEq, Eq, Structural)]
pub struct ReadFlag {
    value: bool,
}

impl View for ReadFlag {
    type V = bool;

    closed spec fn view(&self) -> bool {
        self.value
    }
}

impl ReadFlag {
    pub fn new(value: bool) -> (flag: ReadFlag)
        ensures
            flag@ == value,
    {
        ReadFlag { value }
    }

    pub fn to_bool(&self) -> (value: bool)
        ensures
            value == self@,
    {
        self.value
    }
}

/// Whether a book is owned.
#[derive(Debug, Clone, Copy, PartialEq, Eq, Structural)]
pub struct OwnedFlag {
    value: bool,
}

impl View for OwnedFlag {
    type V = bool;

    closed spec fn view(&self) -> bool {
        self.value
    }
}

impl OwnedFlag {
    pub fn new(value: bool) -> (flag: OwnedFlag)
        ensures
            flag@ == value,
    {
        OwnedFlag { value }
    }

    pub fn to_bool(&self) -> (value: bool)
        ensures
            value == self@,
    {
        self.value
    }
}

/// The largest priority.
pub const PRIORITY_MAX: i32 = 100;

/// Text of the rejection of a priority out of range.
pub open spec fn priority_range_text() -> Seq<char> {
    "value: Validation error: range"@
}

/// How much a book is wanted, from 0 to 100.
#[derive(Debug, Clone, Copy, PartialEq, Eq, Structural)]
pub struct Priority {
    value: i32,
}

impl View for Priority {
    type V = int;

    closed spec fn view(&self) -> int {
        self.value as int
    }
}

impl Priority {
    /// Every priority lies in range.
    pub closed spec fn wf(&self) -> bool {
        0 <= self.value <= PRIORITY_MAX
    }

    /// Accepts 0 to 100, both included.
    pub fn new(value: i32) -> (r: Result<Priority, DomainError>)
        ensures
            0 <= value <= PRIORITY_MAX ==> (r matches Ok(priority) && priority@ == value
                && priority.wf()),
            !(0 <= value <= PRIORITY_MAX) ==> (r matches Err(DomainError::Validation(text))
                && text@ == priority_range_text()),
    {
        if 0 <= value && value <= PRIORITY_MAX {
            Ok(Priority { value })
        } else {
            Err(DomainError::Validation("value: Validation error: range".to_string()))
        }
    }

    pub fn to_i32(&self) -> (value: i32)
        ensures
            value == self@,
    {
        self.value
    }
}

/// Text of the rejection of a name that is no format.
pub open spec fn bad_format_text(value: Seq<char>) -> Seq<char> {
    value + " is not valid format"@
}

/// Text of the rejection of a name that is no store.
pub open spec fn bad_store_text(value: Seq<char>) -> Seq<char> {
    value + " is not valid store"@
}

/// Reads a stored format; another name is a validation error.
pub fn parse_book_format(value: &str) -> (r: Result<BookFormat, DomainError>)
    ensures
        match format_of_name(value@) {
            Some(format) => r matches Ok(f) && f == format,
            None => r matches Err(DomainError::Validation(text)) && text@ == bad_format_text(
                value@,
            ),
        },
{
    match BookFormat::try_from(value) {
        Ok(format) => Ok(format),
        Err(error) => Err(DomainError::from(error)),
    }
}

/// Reads a stored store; another name is a validation error.
pub fn parse_book_store(value: &str) -> (r: Result<BookStore, DomainError>)
    ensures
        match store_of_name(value@) {
            Some(store) => r matches Ok(s) && s == store,
            None => r matches Err(DomainError::Validation(text)) && text@ == bad_store_text(
                value@,
            ),
        },
{
    match BookStore::try_from(value) {
        Ok(store) => Ok(store),
        Err(error) => Err(DomainError::from(error)),
    }
}

/// The parts of a book, for taking apart.
#[derive(Debug, Clone)]
pub struct DestructureBook {
    pub id: BookId,
    pub title: BookTitle,
    pub author_ids: Vec<AuthorId>,
    pub isbn: Isbn,
    pub read: ReadFlag,
    pub owned: OwnedFlag,
    pub priority: Priority,
    pub format: BookFormat,
    pub store: BookStore,
    pub created_at: time::OffsetDateTime,
    pub updated_at: time::OffsetDateTime,
}

/// A book.
#[derive(Debug, Clone)]
pub struct Book {
    id: BookId,
    title: BookTitle,
    author_ids: Vec<AuthorId>,
    isbn: Isbn,
    read: ReadFlag,
    owned: OwnedFlag,
    priority: Priority,
    format: BookFormat,
    store: BookStore,
    created_at: time::OffsetDateTime,
    updated_at: time::OffsetDateTime,
}

impl Book {
    /// The parts of the book.
    pub closed spec fn parts(&self) -> DestructureBook {
        DestructureBook {
            id: self.id,
            title: self.title,
            author_ids: self.author_ids,
            isbn: self.isbn,
            read: self.read,
            owned: self.owned,
            priority: self.priority,
            format: self.format,
            store: self.store,
            created_at: self.created_at,
            updated_at: self.updated_at,
        }
    }

    /// Never fails: every part is valid by its type.
    pub fn new(
        id: BookId,
        title: BookTitle,
        author_ids: Vec<AuthorId>,
        isbn: Isbn,
        read: ReadFlag,
        owned: OwnedFlag,
        priority: Priority,
        format: BookFormat,
        store: BookStore,
        created_at: time::OffsetDateTime,
        updated_at: time::OffsetDateTime,
    ) -> (r: Result<Book, DomainError>)
        ensures
            r matches Ok(book) && book.parts() == (DestructureBook {
                id,
                title,
                author_ids,
                isbn,
                read,
                owned,
                priority,
                format,
                store,
                created_at,
                updated_at,
            }),
    {
        Ok(
            Book {
                id,
                title,
                author_ids,
                isbn,
                read,
                owned,
                priority,
                format,
                store,
                created_at,
                updated_at,
            },
        )
    }

    pub fn destructure(self) -> (parts: DestructureBook)
        ensures
            parts == self.parts(),
    {
        DestructureBook {
            id: self.id,
            title: self.title,
            author_ids: self.author_ids,
            isbn: self.isbn,
            read: self.read,
            owned: self.owned,
            priority: self.priority,
            format: self.format,
            store: self.store,
            created_at: self.created_at,
            updated_at: self.updated_at,
        }
    }

    pub fn id(&self) -> (id: &BookId)
        ensures
            *id == self.parts().id,
    {
        &self.id
    }

    pub fn title(&self) -> (title: &BookTitle)
        ensures
            *title == self.parts().title,
    {
        &self.title
    }

    pub fn author_ids(&self) -> (author_ids: &Vec<AuthorId>)
        ensures
            *author_ids == self.parts().author_ids,
    {
        &self.author_ids
    }

    pub fn isbn(&self) -> (isbn: &Isbn)
        ensures
            *isbn == self.parts().isbn,
    {
        &self.isbn
    }

    pub fn read(&self) -> (read: &ReadFlag)
        ensures
            *read == self.parts().read,
    {
        &self.read
    }

    pub fn owned(&self) -> (owned: &OwnedFlag)
        ensures
            *owned == self.parts().owned,
    {
        &self.owned
    }

    pub fn priority(&self) -> (priority: &Priority)
        ensures
            *priority == self.parts().priority,
    {
        &self.priority
    }

    pub fn format(&self) -> (format: &BookFormat)
        ensures
            *format == self.parts().format,
    {
        &self.format
    }

    pub fn store(&self) -> (store: &BookStore)
        ensures
            *store == self.parts().store,
    {
        &self.store
    }

    pub fn created_at(&self) -> (created_at: &time::OffsetDateTime)
        ensures
            *created_at == self.parts().created_at,
    {
        &self.created_at
    }

    pub fn updated_at(&self) -> (updated_at: &time::OffsetDateTime)
        ensures
            *updated_at == self.parts().updated_at,
    {
        &self.updated_at
    }

    pub fn set_title(&mut self, val: BookTitle)
        ensures
            final(self).parts() == (DestructureBook { title: val, ..old(self).parts() }),
    {
        self.title = val;
    }

    pub fn set_author_ids(&mut self, val: Vec<AuthorId>)
        ensures
            final(self).parts() == (DestructureBook { author_ids: val, ..old(self).parts() }),
    {
        self.author_ids = val;
    }

    pub fn set_isbn(&mut self, val: Isbn)
        ensures
            final(self).parts() == (DestructureBook { isbn: val, ..old(self).parts() }),
    {
        self.isbn = val;
    }

    pub fn set_read(&mut self, val: ReadFlag)
        ensures
            final(self).parts() == (DestructureBook { read: val, ..old(self).parts() }),
    {
        self.read = val;
    }

    pub fn set_owned(&mut self, val: OwnedFlag)
        ensures
            final(self).parts() == (DestructureBook { owned: val, ..old(self).parts() }),
    {
        self.owned = val;
    }

    pub fn set_priority(&mut self, val: Priority)
        ensures
            final(self).parts() == (DestructureBook { priority: val, ..old(self).parts() }),
    {
        self.priority = val;
    }

    pub fn set_format(&mut self, val: BookFormat)
        ensures
            final(self).parts() == (DestructureBook { format: val, ..old(self).parts() }),
    {
        self.format = val;
    }

    pub fn set_store(&mut self, val: BookStore)
        ensures
            final(self).parts() == (DestructureBook { store: val, ..old(self).parts() }),
    {
        self.store = val;
    }

    pub fn set_created_at(&mut self, val: time::OffsetDateTime)
        ensures
            final(self).parts() == (DestructureBook { created_at: val, ..old(self).parts() }),
    {
        self.created_at = val;
    }

    pub fn set_updated_at(&mut self, val: time::OffsetDateTime)
        ensures
            final(self).parts() == (DestructureBook { updated_at: val, ..old(self).parts() }),
    {
        self.updated_at = val;
    }
}

} // verus!
