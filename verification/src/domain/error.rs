//! Failures of the domain layer.

use vstd::prelude::*;
use vstd::std_specs::convert::FromSpecImpl;
use crate::common::text::concat;
use crate::common::types::{ParseBookFormatError, ParseBookStoreError};

verus! {

/// Why a domain operation failed.
#[derive(Debug, Clone)]
pub enum DomainError {
    /// A value broke a rule of its type; the text says which.
    Validation(String),
    /// No entity of that identifier belongs to that user.
    NotFound { entity_type: &'static str, entity_id: String, user_id: String },
    /// Storage failed; the text is its message.
    InfrastructureError(String),
    /// Storage answered what it never should.
    Unexpected(String),
}

/// Mathematical content of a [`DomainError`].
pub ghost enum DomainErrorView {
    Validation(Seq<char>),
    NotFound { entity_type: Seq<char>, entity_id: Seq<char>, user_id: Seq<char> },
    InfrastructureError(Seq<char>),
    Unexpected(Seq<char>),
}

impl View for DomainError {
    type V = DomainErrorView;

    open spec fn view(&self) -> DomainErrorView {
        match *self {
            DomainError::Validation(message) => DomainErrorView::Validation(message@),
            DomainError::NotFound { entity_type, entity_id, user_id } => DomainErrorView::NotFound {
                entity_type: entity_type@,
                entity_id: entity_id@,
                user_id: user_id@,
            },
            DomainError::InfrastructureError(message) => DomainErrorView::InfrastructureError(
                message@,
            ),
            DomainError::Unexpected(message) => DomainErrorView::Unexpected(message@),
        }
    }
}

/// The text of a missing entity.
pub open spec fn not_found_text(entity_type: Seq<char>, entity_id: Seq<char>, user_id: Seq<char>) -> Seq<
    char,
> {
    entity_type + " was not found for entity_id \""@ + entity_id + "\" and user_id \""@ + user_id
        + "\"."@
}

/// Builds the text of a missing entity.
pub fn not_found_message(entity_type: &str, entity_id: &str, user_id: &str) -> (text: String)
    ensures
        text@ == not_found_text(entity_type@, entity_id@, user_id@),
{
    let mut text = concat(entity_type, " was not found for entity_id \"");
    text.append(entity_id);
    text.append("\" and user_id \"");
    text.append(user_id);
    text.append("\".");
    text
}

impl DomainError {
    /// The text shown for the error.
    pub open spec fn text(&self) -> Seq<char> {
        match *self {
            DomainError::Validation(message) => message@,
            DomainError::NotFound { entity_type, entity_id, user_id } => not_found_text(
                entity_type@,
                entity_id@,
                user_id@,
            ),
            DomainError::InfrastructureError(message) => message@,
            DomainError::Unexpected(message) => message@,
        }
    }

    pub fn to_string(&self) -> (text: String)
        ensures
            text@ == self.text(),
    {
        match self {
            DomainError::Validation(message) => message.clone(),
            DomainError::NotFound { entity_type, entity_id, user_id } => not_found_message(
                entity_type,
                entity_id.as_str(),
                user_id.as_str(),
            ),
            DomainError::InfrastructureError(message) => message.clone(),
            DomainError::Unexpected(message) => message.clone(),
        }
    }
}

impl From<ParseBookStoreError> for DomainError {
    fn from(err: ParseBookStoreError) -> (r: Self) {
        DomainError::Validation(err.0)
    }
}

impl FromSpecImpl<ParseBookStoreError> for DomainError {
    open spec fn obeys_from_spec() -> bool {
        true
    }

    open spec fn from_spec(err: ParseBookStoreError) -> Self {
        DomainError::Validation(err.0)
    }
}

impl From<ParseBookFormatError> for DomainError {
    fn from(err: ParseBookFormatError) -> (r: Self) {
        DomainError::Validation(err.0)
    }
}

impl FromSpecImpl<ParseBookFormatError> for DomainError {
    open spec fn obeys_from_spec() -> bool {
        true
    }

    open spec fn from_spec(err: ParseBookFormatError) -> Self {
        DomainError::Validation(err.0)
    }
}

} // verus!
