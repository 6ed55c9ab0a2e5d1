pub mod app_state;
pub mod error;
pub mod extractor;
pub mod handler;
