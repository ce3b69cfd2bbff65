//! The book, the rules on its fields and the ways to ask for books.

use crate::books::books_domain::utils::{Isbn, ValidatedStr};
use crate::books::errors::{BookError, BookRule};
use vstd::prelude::*;

verus! {

/// The title of a book.
pub type BookTitle = ValidatedStr;

/// The name of an author.
pub type BookAuthor = ValidatedStr;

/// The name of a publisher.
pub type BookPublisher = ValidatedStr;

/// The earliest year of publication that the catalogue takes.
pub const MIN_YEAR: u16 = 1900;

/// The latest year of publication that the catalogue takes.
pub const MAX_YEAR: u16 = 2100;

/// The most copies of one book that the catalogue takes.
pub const MAX_STORED_QUANTITY: u16 = 1000;

/// The texts of a sequence of validated texts.
pub open spec fn texts_of(values: Seq<ValidatedStr>) -> Seq<Seq<char>> {
    values.map_values(|value: ValidatedStr| value@)
}

/// The mathematical value of a [`Book`].
pub struct BookView {
    pub id: u128,
    pub title: Seq<char>,
    pub authors: Seq<Seq<char>>,
    pub publisher: Seq<char>,
    pub year: u16,
    pub isbn: Seq<char>,
    pub stored_quantity: u16,
}

impl BookView {
    /// The first rule that the fields break, in the order authors, year,
    /// stored quantity; `None` where they break none.
    pub open spec fn first_broken_rule(self) -> Option<BookRule> {
        if self.authors.len() < 1 {
            Some(BookRule::Authors)
        } else if self.year < MIN_YEAR || self.year > MAX_YEAR {
            Some(BookRule::Year)
        } else if self.stored_quantity < 1 || self.stored_quantity > MAX_STORED_QUANTITY {
            Some(BookRule::StoredQuantity)
        } else {
            None
        }
    }
}

/// A book of the catalogue.
#[derive(Debug, Clone, PartialEq, Eq, Hash)]
pub struct Book {
    /// The identifier, a UUID as a number.
    pub id: u128,
    pub title: BookTitle,
    pub authors: Vec<BookAuthor>,
    pub publisher: BookPublisher,
    pub year: u16,
    pub isbn: Isbn,
    pub stored_quantity: u16,
}

impl View for Book {
    type V = BookView;

    open spec fn view(&self) -> BookView {
        BookView {
            id: self.id,
            title: self.title@,
            authors: texts_of(self.authors@),
            publisher: self.publisher@,
            year: self.year,
            isbn: self.isbn@,
            stored_quantity: self.stored_quantity,
        }
    }
}

impl Book {
    /// Holds the book to the rules on its fields: at least one author, a
    /// year from 1900 to 2100, from 1 to 1000 stored copies.
    pub fn validate(&self) -> (res: Result<(), BookError>)
        ensures
            match self@.first_broken_rule() {
                None => res is Ok,
                Some(rule) => res matches Err(e) && e == BookError::Validation(rule),
            },
    {
        if self.authors.len() < 1 {
            Err(BookError::Validation(BookRule::Authors))
        } else if self.year < MIN_YEAR || self.year > MAX_YEAR {
            Err(BookError::Validation(BookRule::Year))
        } else if self.stored_quantity < 1 || self.stored_quantity > MAX_STORED_QUANTITY {
            Err(BookError::Validation(BookRule::StoredQuantity))
        } else {
            Ok(())
        }
    }
}

/// How one book is asked for.
#[derive(Clone, Debug, PartialEq, Eq)]
pub enum ReadBookCriteria {
    /// By its identifier.
    ById(u128),
    /// By its ISBN in canonical form.
    ByIsbn(String),
}

/// How several books are asked for.
#[derive(Clone, Debug, PartialEq, Eq)]
pub enum ReadMultipleBooksCriteria {
    /// All of them.
    All,
    /// Those whose title holds the text.
    ByTitle(String),
    /// Those with an author whose name holds the text.
    ByAuthor(String),
}

/// One page of books.
#[derive(Debug, Clone)]
pub struct PaginatedBooks {
    pub books: Vec<Book>,
    /// How many books there are on all pages together.
    pub total: u64,
    pub page: u32,
    pub page_size: u8,
}

/// The rows of a page: how many, and how many to skip before them.
#[derive(Copy, Clone, Debug, PartialEq, Eq, Structural)]
pub struct PageWindow {
    /// The number of the page, counted from 1.
    pub page: u32,
    pub limit: i64,
    pub offset: i64,
}

impl PageWindow {
    /// The window of page `page` with `page_size` books on a page. Pages
    /// are counted from 1, and page 0 is taken as page 1.
    pub open spec fn spec_of(page: u32, page_size: u8) -> PageWindow {
        let page = if page < 1 {
            1u32
        } else {
            page
        };
        PageWindow {
            page,
            limit: page_size as i64,
            offset: ((page - 1) * page_size) as i64,
        }
    }

    /// The window of page `page` with `page_size` books on a page. Pages
    /// are counted from 1, and page 0 is taken as page 1.
    pub fn of(page: u32, page_size: u8) -> (window: PageWindow)
        ensures
            window == PageWindow::spec_of(page, page_size),
            window.page >= 1,
            window.limit == page_size,
            window.offset == (window.page - 1) * page_size,
    {
        let page = if page < 1 {
            1
        } else {
            page
        };
        let before: i64 = (page - 1) as i64;
        let size: i64 = page_size as i64;
        assert(0 <= before * size <= 0xffff_ffff * 0xff) by (nonlinear_arith)
            requires
                0 <= before <= 0xffff_ffff,
                0 <= size <= 0xff,
        ;
        PageWindow { page, limit: size, offset: before * size }
    }
}

} // verus!
