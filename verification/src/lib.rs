//! A URL-shortening core: short fixed-length tokens, the store that binds
//! them to URLs, and what a request handler answers from the two.

pub mod shortener;
pub mod store;
pub mod token;
