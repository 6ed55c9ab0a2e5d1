//! Bookshelf API core: bearer-token authentication and the domain
//! rules of the bookshelf, with their contracts.

pub mod common;
pub mod domain;
pub mod import;
pub mod infrastructure;
pub mod presentation;
pub mod types;
pub mod use_case;
