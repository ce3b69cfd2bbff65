//! What the HTTP handlers of the catalogue decide.

use crate::books::books_domain::identifiers::{parse_uuid, uuid_of_text};
use crate::errors::AppError;
use vstd::prelude::*;

verus! {

/// The identifier that a path of the form `/books/{id}` names: the number
/// of the UUID that the text spells. A text that spells none is refused.
pub fn book_id(id: &str) -> (res: Result<u128, AppError>)
    ensures
        match uuid_of_text(id@) {
            Some(number) => res == Ok::<u128, AppError>(number),
            None => res matches Err(AppError::Custom(text)) && text@ == "id inválido"@,
        },
{
    match parse_uuid(id) {
        Ok(number) => Ok(number),
        Err(_) => Err(AppError::Custom(String::from_str("id inválido"))),
    }
}

} // verus!
