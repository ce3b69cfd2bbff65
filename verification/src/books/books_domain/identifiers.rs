//! The identifiers of books.
//!
//! A book is identified by a UUID. Inside the catalogue the UUID is the
//! 128-bit number that it stands for; its text form is read and written
//! where the catalogue meets a database or a request.

use uuid::Uuid;
use vstd::prelude::*;

verus! {

/// The number of the UUID that a text spells, as `uuid::Uuid::parse_str`
/// reads it; `None` where the text spells none.
pub uninterp spec fn uuid_of_text(text: Seq<char>) -> Option<u128>;

/// Parses a UUID with `uuid::Uuid::parse_str` and hands out its number, or
/// the description of the parser's error. Trusted: the answer is the value
/// that [`uuid_of_text`] stands for.
#[verifier::external_body]
pub(crate) fn parse_uuid(text: &str) -> (res: Result<u128, String>)
    ensures
        res matches Ok(id) ==> uuid_of_text(text@) == Some(id),
        res is Err ==> uuid_of_text(text@) is None,
{
    match Uuid::parse_str(text) {
        Ok(uuid) => Ok(uuid.as_u128()),
        Err(e) => Err(format!("{:?}", e)),
    }
}

/// Draws a random UUID with `uuid::Uuid::new_v4` and hands out its number.
/// Nothing is claimed about the number. Where the operating system gives no
/// random bytes, `new_v4` does not return: it panics.
#[verifier::external_body]
pub(crate) fn fresh_uuid() -> (id: u128) {
    Uuid::new_v4().as_u128()
}

} // verus!
