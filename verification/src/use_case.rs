pub mod dto;
pub mod error;
pub mod interactor;
