//! Format and store of a book, as they are written in storage and on the wire.

use vstd::prelude::*;
use crate::common::text::concat;

verus! {

/// The physical form of a book.
#[derive(Debug, Clone, Copy, PartialEq, Eq, Structural)]
pub enum BookFormat {
    EBook,
    Printed,
    Unknown,
}

/// The name under which a format is stored.
pub open spec fn format_name(format: BookFormat) -> Seq<char> {
    match format {
        BookFormat::EBook => "eBook"@,
        BookFormat::Printed => "Printed"@,
        BookFormat::Unknown => "Unknown"@,
    }
}

/// The format that a name stands for, if it is the name of one.
pub open spec fn format_of_name(name: Seq<char>) -> Option<BookFormat> {
    if name == "eBook"@ {
        Some(BookFormat::EBook)
    } else if name == "Printed"@ {
        Some(BookFormat::Printed)
    } else if name == "Unknown"@ {
        Some(BookFormat::Unknown)
    } else {
        None
    }
}

/// A name that is the name of no format.
#[derive(Debug, Clone)]
pub struct ParseBookFormatError(pub String);

impl ParseBookFormatError {
    /// The message: the rejected name, then " is not valid format".
    pub fn to_string(&self) -> (text: String)
        ensures
            text@ == self.0@,
    {
        self.0.clone()
    }
}

impl BookFormat {
    pub fn to_string(&self) -> (name: String)
        ensures
            name@ == format_name(*self),
    {
        match self {
            BookFormat::EBook => "eBook".to_string(),
            BookFormat::Printed => "Printed".to_string(),
            BookFormat::Unknown => "Unknown".to_string(),
        }
    }

    /// Reads a stored name. Succeeds exactly on the three names.
    pub fn try_from(value: &str) -> (r: Result<BookFormat, ParseBookFormatError>)
        ensures
            match format_of_name(value@) {
                Some(format) => r == Ok::<BookFormat, ParseBookFormatError>(format),
                None => r matches Err(e) && e.0@ == value@ + " is not valid format"@,
            },
    {
        if value.eq("eBook") {
            Ok(BookFormat::EBook)
        } else if value.eq("Printed") {
            Ok(BookFormat::Printed)
        } else if value.eq("Unknown") {
            Ok(BookFormat::Unknown)
        } else {
            Err(ParseBookFormatError(concat(value, " is not valid format")))
        }
    }
}

/// Where a book was bought.
#[derive(Debug, Clone, Copy, PartialEq, Eq, Structural)]
pub enum BookStore {
    Kindle,
    Unknown,
}

/// The name under which a store is stored.
pub open spec fn store_name(store: BookStore) -> Seq<char> {
    match store {
        BookStore::Kindle => "Kindle"@,
        BookStore::Unknown => "Unknown"@,
    }
}

/// The store that a name stands for, if it is the name of one.
pub open spec fn store_of_name(name: Seq<char>) -> Option<BookStore> {
    if name == "Kindle"@ {
        Some(BookStore::Kindle)
    } else if name == "Unknown"@ {
        Some(BookStore::Unknown)
    } else {
        None
    }
}

/// A name that is the name of no store.
#[derive(Debug, Clone)]
pub struct ParseBookStoreError(pub String);

impl ParseBookStoreError {
    /// The message: the rejected name, then " is not valid store".
    pub fn to_string(&self) -> (text: String)
        ensures
            text@ == self.0@,
    {
        self.0.clone()
    }
}

impl BookStore {
    pub fn to_string(&self) -> (name: String)
        ensures
            name@ == store_name(*self),
    {
        match self {
            BookStore::Kindle => "Kindle".to_string(),
            BookStore::Unknown => "Unknown".to_string(),
        }
    }

    /// Reads a stored name. Succeeds exactly on the two names.
    pub fn try_from(value: &str) -> (r: Result<BookStore, ParseBookStoreError>)
        ensures
            match store_of_name(value@) {
                Some(store) => r == Ok::<BookStore, ParseBookStoreError>(store),
                None => r matches Err(e) && e.0@ == value@ + " is not valid store"@,
            },
    {
        if value.eq("Kindle") {
            Ok(BookStore::Kindle)
        } else if value.eq("Unknown") {
            Ok(BookStore::Unknown)
        } else {
            Err(ParseBookStoreError(concat(value, " is not valid store")))
        }
    }
}

/// The names of the three formats are pairwise different.
proof fn format_names_differ()
    ensures
        "eBook"@ != "Printed"@,
        "eBook"@ != "Unknown"@,
        "Printed"@ != "Unknown"@,
        "Kindle"@ != "Unknown"@,
{
    reveal_strlit("eBook");
    reveal_strlit("Printed");
    reveal_strlit("Unknown");
    reveal_strlit("Kindle");
    assert("eBook"@.len() == 5);
    assert("Printed"@.len() == 7);
    assert("Unknown"@.len() == 7);
    assert("Kindle"@.len() == 6);
    assert("Printed"@[0] == 'P');
    assert("Unknown"@[0] == 'U');
}

/// A format is read back from the name it is stored under.
pub proof fn format_name_round_trip(format: BookFormat)
    ensures
        format_of_name(format_name(format)) == Some(format),
{
    format_names_differ();
}

/// A store is read back from the name it is stored under.
pub proof fn store_name_round_trip(store: BookStore)
    ensures
        store_of_name(store_name(store)) == Some(store),
{
    format_names_differ();
}

} // verus!
