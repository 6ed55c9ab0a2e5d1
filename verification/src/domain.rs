pub mod entity;
pub mod error;
