pub mod author_repository;
pub mod book_repository;
pub mod user_repository;
