pub mod claims;
pub mod jwt;
