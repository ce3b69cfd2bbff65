//! Taking a book out of the catalogue.

use crate::books::books_domain::books::Book;
use crate::books::errors::BookError;
use vstd::prelude::*;

verus! {

/// The book that a lookup found, or `NotFound` where it found none: what
/// is not there can be neither shown nor deleted.
pub fn check_exists(found: Option<Book>) -> (res: Result<Book, BookError>)
    ensures
        match found {
            Some(book) => res == Ok::<Book, BookError>(book),
            None => res matches Err(BookError::NotFound),
        },
{
    match found {
        Some(book) => Ok(book),
        None => Err(BookError::NotFound),
    }
}

} // verus!
