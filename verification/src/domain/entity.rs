pub mod author;
pub mod book;
pub mod user;
