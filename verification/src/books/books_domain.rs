//! The values of the catalogue.

pub mod books;
pub mod identifiers;
pub mod utils;

pub use crate::books::books_domain::books::{
    Book, BookAuthor, BookPublisher, BookTitle, PageWindow, PaginatedBooks, ReadBookCriteria,
    ReadMultipleBooksCriteria,
};
pub use crate::books::books_domain::utils::{Isbn, ValidatedStr};
