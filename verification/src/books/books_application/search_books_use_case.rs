//! Searching books by title or by author.

use crate::books::books_domain::books::ReadMultipleBooksCriteria;
use crate::text::{trim, trimmed};
use vstd::prelude::*;

verus! {

/// What a search carries.
#[derive(Debug, Clone)]
pub struct SearchBooksDto {
    pub title: Option<String>,
    pub author: Option<String>,
    pub page: u32,
    pub page_size: u8,
}

/// Whether a text holds anything but white space.
pub open spec fn is_filled(s: Seq<char>) -> bool {
    trimmed(s).len() > 0
}

/// What a search asks for.
pub enum SearchTarget {
    All,
    Title(Seq<char>),
    Author(Seq<char>),
}

/// What a search with the given title and author asks for. A title that is
/// filled in decides. An author counts only where no title is given at all:
/// beside a blank title it is passed over, and all books are asked for.
pub open spec fn search_target(title: Option<Seq<char>>, author: Option<Seq<char>>) -> SearchTarget {
    match (title, author) {
        (Some(t), _) => if is_filled(t) {
            SearchTarget::Title(t)
        } else {
            SearchTarget::All
        },
        (None, Some(a)) => if is_filled(a) {
            SearchTarget::Author(a)
        } else {
            SearchTarget::All
        },
        (None, None) => SearchTarget::All,
    }
}

/// The view of a text that may be missing.
pub open spec fn text_view(text: Option<String>) -> Option<Seq<char>> {
    match text {
        Some(t) => Some(t@),
        None => None,
    }
}

/// Whether `criteria` asks for `target`.
pub open spec fn asks_for(criteria: ReadMultipleBooksCriteria, target: SearchTarget) -> bool {
    match target {
        SearchTarget::All => criteria is All,
        SearchTarget::Title(t) => criteria matches ReadMultipleBooksCriteria::ByTitle(text)
            && text@ == t,
        SearchTarget::Author(a) => criteria matches ReadMultipleBooksCriteria::ByAuthor(text)
            && text@ == a,
    }
}

/// Whether a text holds anything but white space.
fn filled(s: &str) -> (b: bool)
    ensures
        b == is_filled(s@),
{
    !trim(s).is_empty()
}

impl SearchBooksDto {
    /// The criteria that the search stands for. The text is passed on as it
    /// was given, white space included.
    pub fn criteria(&self) -> (criteria: ReadMultipleBooksCriteria)
        ensures
            asks_for(criteria, search_target(text_view(self.title), text_view(self.author))),
    {
        match &self.title {
            Some(title) => {
                if filled(title.as_str()) {
                    ReadMultipleBooksCriteria::ByTitle(title.clone())
                } else {
                    ReadMultipleBooksCriteria::All
                }
            },
            None => match &self.author {
                Some(author) => {
                    if filled(author.as_str()) {
                        ReadMultipleBooksCriteria::ByAuthor(author.clone())
                    } else {
                        ReadMultipleBooksCriteria::All
                    }
                },
                None => ReadMultipleBooksCriteria::All,
            },
        }
    }
}

} // verus!
