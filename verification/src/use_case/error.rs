//! Failures of the use-case layer.

use vstd::prelude::*;
use vstd::std_specs::convert::FromSpecImpl;
use crate::domain::error::{not_found_message, not_found_text, DomainError, DomainErrorView};

verus! {

/// Why a use case failed.
#[derive(Debug, Clone)]
pub enum UseCaseError {
    /// An input broke a rule; the text says which.
    Validation(String),
    /// No entity of that identifier belongs to that user.
    NotFound { entity_type: &'static str, entity_id: String, user_id: String },
    /// Storage failed; the text is its message.
    Other(String),
    /// Storage answered what it never should.
    Unexpected(String),
}

/// Mathematical content of a [`UseCaseError`].
pub ghost enum UseCaseErrorView {
    Validation(Seq<char>),
    NotFound { entity_type: Seq<char>, entity_id: Seq<char>, user_id: Seq<char> },
    Other(Seq<char>),
    Unexpected(Seq<char>),
}

impl View for UseCaseError {
    type V = UseCaseErrorView;

    open spec fn view(&self) -> UseCaseErrorView {
        match *self {
            UseCaseError::Validation(message) => UseCaseErrorView::Validation(message@),
            UseCaseError::NotFound { entity_type, entity_id, user_id } => UseCaseErrorView::NotFound {
                entity_type: entity_type@,
                entity_id: entity_id@,
                user_id: user_id@,
            },
            UseCaseError::Other(message) => UseCaseErrorView::Other(message@),
            UseCaseError::Unexpected(message) => UseCaseErrorView::Unexpected(message@),
        }
    }
}

/// The use-case failure that a domain failure becomes: each kind keeps its
/// texts, and a storage failure becomes `Other`.
pub open spec fn lifted(error: DomainErrorView) -> UseCaseErrorView {
    match error {
        DomainErrorView::Validation(message) => UseCaseErrorView::Validation(message),
        DomainErrorView::NotFound { entity_type, entity_id, user_id } => UseCaseErrorView::NotFound {
            entity_type,
            entity_id,
            user_id,
        },
        DomainErrorView::InfrastructureError(message) => UseCaseErrorView::Other(message),
        DomainErrorView::Unexpected(message) => UseCaseErrorView::Unexpected(message),
    }
}

/// The text shown for a use-case failure.
pub open spec fn use_case_text(error: UseCaseErrorView) -> Seq<char> {
    match error {
        UseCaseErrorView::Validation(message) => message,
        UseCaseErrorView::NotFound { entity_type, entity_id, user_id } => not_found_text(
            entity_type,
            entity_id,
            user_id,
        ),
        UseCaseErrorView::Other(message) => message,
        UseCaseErrorView::Unexpected(message) => message,
    }
}

impl UseCaseError {
    pub fn to_string(&self) -> (text: String)
        ensures
            text@ == use_case_text(self@),
    {
        match self {
            UseCaseError::Validation(message) => message.clone(),
            UseCaseError::NotFound { entity_type, entity_id, user_id } => not_found_message(
                entity_type,
                entity_id.as_str(),
                user_id.as_str(),
            ),
            UseCaseError::Other(message) => message.clone(),
            UseCaseError::Unexpected(message) => message.clone(),
        }
    }
}

impl From<DomainError> for UseCaseError {
    fn from(err: DomainError) -> (r: Self) {
        match err {
            DomainError::Validation(message) => UseCaseError::Validation(message),
            DomainError::NotFound { entity_type, entity_id, user_id } => UseCaseError::NotFound {
                entity_type,
                entity_id,
                user_id,
            },
            DomainError::InfrastructureError(message) => UseCaseError::Other(message),
            DomainError::Unexpected(message) => UseCaseError::Unexpected(message),
        }
    }
}

impl FromSpecImpl<DomainError> for UseCaseError {
    open spec fn obeys_from_spec() -> bool {
        true
    }

    open spec fn from_spec(err: DomainError) -> Self {
        match err {
            DomainError::Validation(message) => UseCaseError::Validation(message),
            DomainError::NotFound { entity_type, entity_id, user_id } => UseCaseError::NotFound {
                entity_type,
                entity_id,
                user_id,
            },
            DomainError::InfrastructureError(message) => UseCaseError::Other(message),
            DomainError::Unexpected(message) => UseCaseError::Unexpected(message),
        }
    }
}

/// Lifts a domain failure, stated over the contents of both.
pub fn lift(error: DomainError) -> (r: UseCaseError)
    ensures
        r@ == lifted(error@),
{
    UseCaseError::from(error)
}

} // verus!
