pub mod author;
pub mod book;
pub mod mutation;
pub mod query;
pub mod user;
