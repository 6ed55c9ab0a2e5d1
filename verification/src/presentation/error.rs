//! Failures as they are shown to a client of the API.

use vstd::prelude::*;
use crate::use_case::error::{use_case_text, UseCaseError, UseCaseErrorView};

verus! {

/// Why a request failed.
#[derive(Debug, Clone)]
pub enum PresentationalError {
    NotFound(String),
    Validation(String),
    OtherError(String),
    Unexpected(String),
}

/// Mathematical content of a [`PresentationalError`].
pub ghost enum PresentationalErrorView {
    NotFound(Seq<char>),
    Validation(Seq<char>),
    OtherError(Seq<char>),
    Unexpected(Seq<char>),
}

impl View for PresentationalError {
    type V = PresentationalErrorView;

    open spec fn view(&self) -> PresentationalErrorView {
        match *self {
            PresentationalError::NotFound(message) => PresentationalErrorView::NotFound(message@),
            PresentationalError::Validation(message) => PresentationalErrorView::Validation(
                message@,
            ),
            PresentationalError::OtherError(message) => PresentationalErrorView::OtherError(
                message@,
            ),
            PresentationalError::Unexpected(message) => PresentationalErrorView::Unexpected(
                message@,
            ),
        }
    }
}

/// What a use-case failure is shown as: the same kind, with its text.
pub open spec fn shown(error: UseCaseErrorView) -> PresentationalErrorView {
    match error {
        UseCaseErrorView::NotFound { .. } => PresentationalErrorView::NotFound(
            use_case_text(error),
        ),
        UseCaseErrorView::Validation(_) => PresentationalErrorView::Validation(
            use_case_text(error),
        ),
        UseCaseErrorView::Other(_) => PresentationalErrorView::OtherError(use_case_text(error)),
        UseCaseErrorView::Unexpected(message) => PresentationalErrorView::Unexpected(message),
    }
}

impl PresentationalError {
    /// The text shown for the failure.
    pub open spec fn text(&self) -> Seq<char> {
        match *self {
            PresentationalError::NotFound(message) => message@,
            PresentationalError::Validation(message) => message@,
            PresentationalError::OtherError(message) => message@,
            PresentationalError::Unexpected(message) => message@,
        }
    }

    pub fn to_string(&self) -> (text: String)
        ensures
            text@ == self.text(),
    {
        match self {
            PresentationalError::NotFound(message) => message.clone(),
            PresentationalError::Validation(message) => message.clone(),
            PresentationalError::OtherError(message) => message.clone(),
            PresentationalError::Unexpected(message) => message.clone(),
        }
    }

    pub fn from(err: UseCaseError) -> (r: PresentationalError)
        ensures
            r@ == shown(err@),
            r.text() == use_case_text(err@),
    {
        match err {
            UseCaseError::NotFound { .. } => PresentationalError::NotFound(err.to_string()),
            UseCaseError::Validation(_) => PresentationalError::Validation(err.to_string()),
            UseCaseError::Other(_) => PresentationalError::OtherError(err.to_string()),
            UseCaseError::Unexpected(message) => PresentationalError::Unexpected(message),
        }
    }
}

} // verus!
