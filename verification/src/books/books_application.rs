//! What a request on the catalogue carries, and what is decided from it.
//!
//! The use cases themselves wait on a store. What they decide between two
//! waits stands here as plain functions.

pub mod create_book_use_case;
pub mod delete_book_use_case;
pub mod get_books_use_case;
pub mod search_books_use_case;
pub mod update_book_use_case;
