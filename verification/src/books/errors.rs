//! Failures of the book catalogue.

use crate::errors::AppErrorKind;
use vstd::prelude::*;

verus! {

/// A rule on the fields of a book.
#[derive(Copy, Clone, Debug, PartialEq, Eq, Structural)]
pub enum BookRule {
    /// A book has at least one author.
    Authors,
    /// The year lies between 1900 and 2100.
    Year,
    /// Between 1 and 1000 copies are stored.
    StoredQuantity,
}

/// What can go wrong while handling a book.
#[derive(Debug, Clone)]
pub enum BookError {
    /// There is no such book.
    NotFound,
    /// A text is empty once the white space around it is taken away.
    EmptyString,
    /// A text holds a character that is neither a letter, a number, a
    /// punctuation mark nor white space.
    InvalidCharacters,
    /// A text is no ISBN.
    InvalidIsbn,
    /// A book breaks a rule on its fields; the first broken rule is named.
    Validation(BookRule),
    /// A book with this ISBN is already there.
    AlreadyExists(String),
    /// The store failed.
    DatabaseError(String),
}

impl BookError {
    /// The category under which the failure is reported.
    pub open spec fn spec_kind(self) -> AppErrorKind {
        match self {
            BookError::NotFound => AppErrorKind::NotFound,
            BookError::EmptyString => AppErrorKind::InvalidData,
            BookError::InvalidCharacters => AppErrorKind::InvalidData,
            BookError::InvalidIsbn => AppErrorKind::InvalidData,
            BookError::Validation(_) => AppErrorKind::InvalidData,
            BookError::AlreadyExists(_) => AppErrorKind::InvalidData,
            BookError::DatabaseError(_) => AppErrorKind::Infrastructure,
        }
    }

    /// The category under which the failure is reported.
    pub fn kind(&self) -> (kind: AppErrorKind)
        ensures
            kind == self.spec_kind(),
    {
        match self {
            BookError::NotFound => AppErrorKind::NotFound,
            BookError::EmptyString => AppErrorKind::InvalidData,
            BookError::InvalidCharacters => AppErrorKind::InvalidData,
            BookError::InvalidIsbn => AppErrorKind::InvalidData,
            BookError::Validation(_) => AppErrorKind::InvalidData,
            BookError::AlreadyExists(_) => AppErrorKind::InvalidData,
            BookError::DatabaseError(_) => AppErrorKind::Infrastructure,
        }
    }

    /// The text shown for the failure.
    pub open spec fn message(self) -> Seq<char> {
        match self {
            BookError::NotFound => "Libro no encontrado"@,
            BookError::EmptyString => "Cadena de texto vacía"@,
            BookError::InvalidCharacters => "Caracteres inválidos"@,
            BookError::InvalidIsbn => "ISBN inválido"@,
            BookError::Validation(_) => "Validación fallida"@,
            BookError::AlreadyExists(isbn) => "Libro con el ISBN: "@ + isbn@ + " ya existe"@,
            BookError::DatabaseError(_) => "Error de base de datos"@,
        }
    }

    /// The text shown for the failure.
    pub fn to_string(&self) -> (text: String)
        ensures
            text@ == self.message(),
    {
        match self {
            BookError::NotFound => String::from_str("Libro no encontrado"),
            BookError::EmptyString => String::from_str("Cadena de texto vacía"),
            BookError::InvalidCharacters => String::from_str("Caracteres inválidos"),
            BookError::InvalidIsbn => String::from_str("ISBN inválido"),
            BookError::Validation(_) => String::from_str("Validación fallida"),
            BookError::AlreadyExists(isbn) => String::from_str("Libro con el ISBN: ").concat(
                isbn.as_str(),
            ).concat(" ya existe"),
            BookError::DatabaseError(_) => String::from_str("Error de base de datos"),
        }
    }

    /// The name of the failure, as it appears in diagnostics.
    pub open spec fn name(self) -> Seq<char> {
        match self {
            BookError::NotFound => "NotFound"@,
            BookError::EmptyString => "EmptyString"@,
            BookError::InvalidCharacters => "InvalidCharacters"@,
            BookError::InvalidIsbn => "InvalidIsbn"@,
            BookError::Validation(_) => "Validation"@,
            BookError::AlreadyExists(_) => "AlreadyExists"@,
            BookError::DatabaseError(_) => "DatabaseError"@,
        }
    }

    /// The name of the failure, as it appears in diagnostics.
    pub fn variant_name(&self) -> (text: String)
        ensures
            text@ == self.name(),
    {
        match self {
            BookError::NotFound => String::from_str("NotFound"),
            BookError::EmptyString => String::from_str("EmptyString"),
            BookError::InvalidCharacters => String::from_str("InvalidCharacters"),
            BookError::InvalidIsbn => String::from_str("InvalidIsbn"),
            BookError::Validation(_) => String::from_str("Validation"),
            BookError::AlreadyExists(_) => String::from_str("AlreadyExists"),
            BookError::DatabaseError(_) => String::from_str("DatabaseError"),
        }
    }
}

} // verus!
