//! Rows of the store, and how they become values of the catalogue.
//!
//! A row holds plain texts and numbers as the database gives them. Turning a
//! row into a book validates every text again: a row that does not pass is a
//! defect of the store and is reported as such.

use crate::books::books_domain::books::{
    texts_of, Book, BookAuthor, BookPublisher, BookTitle, BookView,
};
use crate::books::books_domain::identifiers::{parse_uuid, uuid_of_text};
use crate::books::books_domain::utils::{validated_isbn, validated_text, Isbn};
use crate::books::errors::BookError;
use vstd::prelude::*;

verus! {

/// A row of the table of books.
#[derive(Debug)]
pub struct DbBook {
    pub id: String,
    pub title: String,
    pub publisher: String,
    pub year: i64,
    pub isbn: String,
    pub stored: i64,
}

/// The report of a row that does not make a value: what could not be made,
/// and why.
fn row_defect(what: &str, why: &str) -> (e: BookError)
    ensures
        e matches BookError::DatabaseError(text) && text@ == what@ + why@,
{
    BookError::DatabaseError(String::from_str(what).concat(why))
}

impl DbBook {
    /// The book that the row and the names of its authors stand for, if the
    /// row holds one: its id spells a UUID, its title and publisher are free
    /// text and its ISBN is one. Of the year and the quantity the low 16
    /// bits are taken. The rules on the book as a whole are not looked at.
    pub open spec fn spec_to_domain(&self, authors: Seq<Seq<char>>) -> Option<BookView> {
        match (
            uuid_of_text(self.id@),
            validated_text(self.title@),
            validated_text(self.publisher@),
            validated_isbn(self.isbn@),
        ) {
            (Some(id), Ok(title), Ok(publisher), Ok(isbn)) => Some(
                BookView {
                    id,
                    title,
                    authors,
                    publisher,
                    year: self.year as u16,
                    isbn,
                    stored_quantity: self.stored as u16,
                },
            ),
            _ => None,
        }
    }

    /// Whether `text` reports what keeps the row from holding a book. The
    /// fields are looked at in the order id, title, publisher, ISBN, and the
    /// first that fails is reported: by the name of its kind of value and
    /// the name of its failure, or, for the id, the description that the
    /// UUID parser gave.
    pub open spec fn is_defect_report(&self, text: Seq<char>) -> bool {
        if uuid_of_text(self.id@) is None {
            "Error al crear BookId: "@.is_prefix_of(text)
        } else if validated_text(self.title@) is Err {
            text == "Error al crear BookTitle: "@ + validated_text(self.title@)->Err_0.name()
        } else if validated_text(self.publisher@) is Err {
            text == "Error al crear BookPublisher: "@ + validated_text(
                self.publisher@,
            )->Err_0.name()
        } else if validated_isbn(self.isbn@) is Err {
            text == "Error al crear Isbn: "@ + validated_isbn(self.isbn@)->Err_0.name()
        } else {
            false
        }
    }

    /// Makes a book of the row and the authors that belong to it. A row
    /// that holds no book is a `DatabaseError` that reports the first field
    /// that fails.
    pub fn to_domain_with_authors(&self, authors: Vec<BookAuthor>) -> (res: Result<Book, BookError>)
        ensures
            match self.spec_to_domain(texts_of(authors@)) {
                Some(book) => res matches Ok(b) && b@ == book,
                None => res matches Err(BookError::DatabaseError(text)) && self.is_defect_report(
                    text@,
                ),
            },
    {
        let id = match parse_uuid(self.id.as_str()) {
            Ok(id) => id,
            Err(why) => { return Err(row_defect("Error al crear BookId: ", why.as_str())); },
        };
        let title = match BookTitle::from_str(self.title.as_str()) {
            Ok(title) => title,
            Err(e) => {
                return Err(row_defect("Error al crear BookTitle: ", e.variant_name().as_str()));
            },
        };
        let publisher = match BookPublisher::from_str(self.publisher.as_str()) {
            Ok(publisher) => publisher,
            Err(e) => {
                return Err(
                    row_defect("Error al crear BookPublisher: ", e.variant_name().as_str()),
                );
            },
        };
        let isbn = match Isbn::from_str(self.isbn.as_str()) {
            Ok(isbn) => isbn,
            Err(e) => {
                return Err(row_defect("Error al crear Isbn: ", e.variant_name().as_str()));
            },
        };
        let book = Book {
            id,
            title,
            authors,
            publisher,
            year: #[verifier::truncate]
            (self.year as u16),
            isbn,
            stored_quantity: #[verifier::truncate]
            (self.stored as u16),
        };
        Ok(book)
    }
}

/// A row of the table of authors.
#[derive(Debug)]
pub struct DbAuthor {
    pub id: i64,
    pub name: String,
}

/// The name of an author alone, as a query for names gives it.
#[derive(Debug)]
pub struct DbAuthorName {
    pub name: String,
}

impl DbAuthorName {
    /// The author that the row names. A name that is no free text is a
    /// `DatabaseError`.
    pub fn to_domain(&self) -> (res: Result<BookAuthor, BookError>)
        ensures
            match validated_text(self.name@) {
                Ok(name) => res matches Ok(author) && author@ == name,
                Err(e) => res matches Err(BookError::DatabaseError(text)) && text@
                    == "Error al crear BookAuthor: "@ + e.name(),
            },
    {
        match BookAuthor::try_from(self.name.clone()) {
            Ok(author) => Ok(author),
            Err(e) => Err(row_defect("Error al crear BookAuthor: ", e.variant_name().as_str())),
        }
    }
}

} // verus!
