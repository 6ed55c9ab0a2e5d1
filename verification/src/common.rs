pub mod identifier;
pub mod pattern;
pub mod text;
pub mod types;
