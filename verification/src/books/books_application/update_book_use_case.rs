//! Changing a book that is there.

use crate::books::books_domain::books::Book;
use crate::books::books_domain::utils::Isbn;
use crate::books::errors::BookError;
use vstd::prelude::*;

verus! {

/// Keeps two books from sharing an ISBN: the book stored under the ISBN of
/// the changed book, if there is one, has to be the changed book itself.
/// Else the change is refused as `AlreadyExists`, with the ISBN as it was
/// written.
pub fn check_collision(id: u128, saved_book: &Option<Book>, isbn: &Isbn) -> (res: Result<
    (),
    BookError,
>)
    ensures
        match saved_book {
            Some(book) if book.id != id => res matches Err(BookError::AlreadyExists(text))
                && text@ == isbn@,
            _ => res is Ok,
        },
{
    match saved_book {
        Some(book) => {
            if book.id != id {
                Err(BookError::AlreadyExists(isbn.to_string()))
            } else {
                Ok(())
            }
        },
        None => Ok(()),
    }
}

} // verus!
