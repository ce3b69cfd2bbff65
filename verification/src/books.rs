//! The book catalogue: validated values, the book itself and the shapes in
//! which it is requested, stored and searched.

pub mod books_application;
pub mod books_domain;
pub mod books_infrastructure;
pub mod errors;

pub use crate::books::errors::{BookError, BookRule};
