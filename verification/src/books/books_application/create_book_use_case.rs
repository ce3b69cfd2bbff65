//! Making a book of what a request carries.

use crate::books::books_domain::books::{
    texts_of, Book, BookAuthor, BookPublisher, BookTitle, BookView,
};
use crate::books::books_domain::utils::{validated_isbn, validated_text, Isbn};
use crate::books::books_domain::identifiers::fresh_uuid;
use crate::books::errors::BookError;
use vstd::prelude::*;

verus! {

/// The fields of a book as a request carries them.
#[derive(Debug, Clone)]
pub struct CreateBookDto {
    pub title: String,
    pub authors: Vec<String>,
    pub publisher: String,
    pub year: u16,
    pub isbn: String,
    pub stored_quantity: u16,
}

/// The mathematical value of a [`CreateBookDto`].
pub struct CreateBookDtoView {
    pub title: Seq<char>,
    pub authors: Seq<Seq<char>>,
    pub publisher: Seq<char>,
    pub year: u16,
    pub isbn: Seq<char>,
    pub stored_quantity: u16,
}

/// The characters of each of a sequence of texts.
pub open spec fn strings_of(values: Seq<String>) -> Seq<Seq<char>> {
    values.map_values(|value: String| value@)
}

impl View for CreateBookDto {
    type V = CreateBookDtoView;

    open spec fn view(&self) -> CreateBookDtoView {
        CreateBookDtoView {
            title: self.title@,
            authors: strings_of(self.authors@),
            publisher: self.publisher@,
            year: self.year,
            isbn: self.isbn@,
            stored_quantity: self.stored_quantity,
        }
    }
}

/// The names of the authors, each taken as free text; the failure of the
/// first name that is none.
pub open spec fn validated_authors(names: Seq<Seq<char>>) -> Result<Seq<Seq<char>>, BookError>
    decreases names.len(),
{
    if names.len() == 0 {
        Ok(Seq::empty())
    } else {
        match validated_authors(names.drop_last()) {
            Err(e) => Err(e),
            Ok(front) => match validated_text(names.last()) {
                Err(e) => Err(e),
                Ok(name) => Ok(front.push(name)),
            },
        }
    }
}

/// The book that a request stands for, under the identifier `id`. The
/// fields are looked at in this order: the authors one by one, the title,
/// the publisher, the ISBN, and at last the rules on the book as a whole.
/// The first failure is the result.
pub open spec fn book_of(id: u128, dto: CreateBookDtoView) -> Result<BookView, BookError> {
    match validated_authors(dto.authors) {
        Err(e) => Err(e),
        Ok(authors) => match validated_text(dto.title) {
            Err(e) => Err(e),
            Ok(title) => match validated_text(dto.publisher) {
                Err(e) => Err(e),
                Ok(publisher) => match validated_isbn(dto.isbn) {
                    Err(e) => Err(e),
                    Ok(isbn) => {
                        let book = BookView {
                            id,
                            title,
                            authors,
                            publisher,
                            year: dto.year,
                            isbn,
                            stored_quantity: dto.stored_quantity,
                        };
                        match book.first_broken_rule() {
                            Some(rule) => Err(BookError::Validation(rule)),
                            None => Ok(book),
                        }
                    },
                },
            },
        },
    }
}

/// Takes each name as free text.
fn authors_of(names: &Vec<String>) -> (res: Result<Vec<BookAuthor>, BookError>)
    ensures
        match validated_authors(strings_of(names@)) {
            Ok(texts) => res matches Ok(authors) && texts_of(authors@) == texts,
            Err(e) => res matches Err(err) && err == e,
        },
{
    let mut authors: Vec<BookAuthor> = Vec::new();
    let mut i: usize = 0;
    proof {
        assert(strings_of(names@).take(0) =~= Seq::<Seq<char>>::empty());
        assert(texts_of(authors@) =~= Seq::<Seq<char>>::empty());
    }
    while i < names.len()
        invariant
            0 <= i <= names.len(),
            validated_authors(strings_of(names@).take(i as int)) == Ok::<
                Seq<Seq<char>>,
                BookError,
            >(texts_of(authors@)),
        decreases names.len() - i,
    {
        let ghost all = strings_of(names@);
        proof {
            assert(all.take(i + 1).drop_last() =~= all.take(i as int));
            assert(all.take(i + 1).last() == names@[i as int]@);
        }
        match BookAuthor::from_str(names[i].as_str()) {
            Ok(author) => {
                proof {
                    assert(texts_of(authors@.push(author)) =~= texts_of(authors@).push(author@));
                }
                authors.push(author);
            },
            Err(e) => {
                proof {
                    lemma_failure_stays(all, i + 1);
                }
                return Err(e);
            },
        }
        i += 1;
    }
    proof {
        assert(strings_of(names@).take(names.len() as int) =~= strings_of(names@));
    }
    Ok(authors)
}

/// A failure among the first names is the failure of all the names.
proof fn lemma_failure_stays(names: Seq<Seq<char>>, k: int)
    requires
        0 <= k <= names.len(),
        validated_authors(names.take(k)) is Err,
    ensures
        validated_authors(names) == validated_authors(names.take(k)),
    decreases names.len() - k,
{
    if k < names.len() {
        assert(names.drop_last().take(k) =~= names.take(k));
        lemma_failure_stays(names.drop_last(), k);
    } else {
        assert(names.take(k) =~= names);
    }
}

/// Keeps a new book from taking an ISBN that is taken: where a book is
/// stored under the ISBN, the new one is refused as `AlreadyExists`, with
/// the ISBN as it was written.
pub fn check_collision(saved_book: &Option<Book>, isbn: &Isbn) -> (res: Result<(), BookError>)
    ensures
        match saved_book {
            Some(_) => res matches Err(BookError::AlreadyExists(text)) && text@ == isbn@,
            None => res is Ok,
        },
{
    if saved_book.is_some() {
        Err(BookError::AlreadyExists(isbn.to_string()))
    } else {
        Ok(())
    }
}

/// What a request gives, whatever the identifier: the failure, if the
/// request fails.
pub proof fn lemma_failure_is_the_same_for_every_id(a: u128, b: u128, dto: CreateBookDtoView)
    ensures
        book_of(a, dto) is Err <==> book_of(b, dto) is Err,
        book_of(a, dto) matches Err(e) ==> book_of(b, dto) == Err::<BookView, BookError>(e),
{
}

impl Book {
    /// Makes a book of the fields of a request, under a fresh random
    /// identifier. Drawing the identifier takes random bytes from the
    /// operating system; where it gives none, the call panics.
    pub fn new(dto: CreateBookDto) -> (res: Result<Book, BookError>)
        ensures
            res matches Ok(book) ==> book_of(book.id, dto@) == Ok::<BookView, BookError>(book@),
            res matches Err(e) ==> forall|id: u128|
                #[trigger] book_of(id, dto@) == Err::<BookView, BookError>(e),
            res is Err <==> book_of(0, dto@) is Err,
    {
        let id = fresh_uuid();
        proof {
            lemma_failure_is_the_same_for_every_id(id, 0, dto@);
            assert forall|other: u128| book_of(id, dto@) is Err implies #[trigger] book_of(
                other,
                dto@,
            ) == book_of(id, dto@) by {
                lemma_failure_is_the_same_for_every_id(id, other, dto@);
            }
        }
        Book::try_from((id, dto))
    }

    /// Makes a book of an identifier and the fields of a request: every
    /// text is validated, then the book is held to its rules.
    pub fn try_from(value: (u128, CreateBookDto)) -> (res: Result<Book, BookError>)
        ensures
            match book_of(value.0, value.1@) {
                Ok(book) => res matches Ok(b) && b@ == book,
                Err(e) => res matches Err(err) && err == e,
            },
    {
        let (id, dto) = value;
        let authors = match authors_of(&dto.authors) {
            Ok(authors) => authors,
            Err(e) => { return Err(e); },
        };
        let title = match BookTitle::from_str(dto.title.as_str()) {
            Ok(title) => title,
            Err(e) => { return Err(e); },
        };
        let publisher = match BookPublisher::from_str(dto.publisher.as_str()) {
            Ok(publisher) => publisher,
            Err(e) => { return Err(e); },
        };
        let isbn = match Isbn::from_str(dto.isbn.as_str()) {
            Ok(isbn) => isbn,
            Err(e) => { return Err(e); },
        };
        let book = Book {
            id,
            title,
            authors,
            publisher,
            year: dto.year,
            isbn,
            stored_quantity: dto.stored_quantity,
        };
        match book.validate() {
            Ok(()) => Ok(book),
            Err(e) => Err(e),
        }
    }
}

} // verus!
