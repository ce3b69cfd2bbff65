//! Validated texts: free text for titles and names, and the ISBN.

use crate::books::errors::BookError;
use crate::text::{chars_of, lemma_trim_idempotent, occurs_at, push_char, trim, trimmed};
use parse_display::helpers::regex::Regex;
use vstd::prelude::*;

verus! {

/// What `regex::Regex::is_match` answers for a pattern and a text, or `None`
/// where `regex::Regex::new` refuses the pattern.
pub uninterp spec fn regex_verdict(pattern: Seq<char>, haystack: Seq<char>) -> Option<bool>;

/// Compiles `pattern` with `regex::Regex::new` and searches `haystack` with
/// `Regex::is_match`. Trusted: the answer is the value that
/// [`regex_verdict`] stands for.
#[verifier::external_body]
fn regex_is_match(pattern: &str, haystack: &str) -> (res: Option<bool>)
    ensures
        res == regex_verdict(pattern@, haystack@),
{
    match Regex::new(pattern) {
        Ok(regex) => Some(regex.is_match(haystack)),
        Err(_) => None,
    }
}

/// The pattern of free text: letters, numbers, punctuation and white space,
/// at least one character.
pub open spec fn valid_text_pattern() -> Seq<char> {
    r"^[\p{L}\p{N}\p{P}\s]+$"@
}

/// The pattern of an ISBN: an optional `ISBN` label, then up to five groups
/// of digits that hyphens or blanks may part, the last of one digit or `X`.
pub open spec fn valid_isbn_pattern() -> Seq<char> {
    r"^(?:ISBN[- ]?(?:10|13)?:? )?(?:\d{3}[- ]?)?\d{1,5}[- ]?\d{1,7}[- ]?\d{1,7}[- ]?[0-9X]$"@
}

/// Whether a text is free text.
pub open spec fn is_valid_text(s: Seq<char>) -> bool {
    regex_verdict(valid_text_pattern(), s) == Some(true)
}

/// Whether a text is an ISBN.
pub open spec fn is_valid_isbn(s: Seq<char>) -> bool {
    regex_verdict(valid_isbn_pattern(), s) == Some(true)
}

/// What a text becomes when it is taken as free text: the text without the
/// white space around it, unless that is empty or holds a character that
/// free text may not hold.
pub open spec fn validated_text(s: Seq<char>) -> Result<Seq<char>, BookError> {
    if trimmed(s).len() == 0 {
        Err(BookError::EmptyString)
    } else if !is_valid_text(trimmed(s)) {
        Err(BookError::InvalidCharacters)
    } else {
        Ok(trimmed(s))
    }
}

/// What a text becomes when it is taken as an ISBN: the text without the
/// white space around it, unless that is no ISBN.
pub open spec fn validated_isbn(s: Seq<char>) -> Result<Seq<char>, BookError> {
    if !is_valid_isbn(trimmed(s)) {
        Err(BookError::InvalidIsbn)
    } else {
        Ok(trimmed(s))
    }
}

/// A text that holds something and nothing but letters, numbers,
/// punctuation and white space, with no white space around it.
#[derive(Debug, Hash)]
pub struct ValidatedStr {
    value: String,
}

impl View for ValidatedStr {
    type V = Seq<char>;

    closed spec fn view(&self) -> Seq<char> {
        self.value@
    }
}

impl Clone for ValidatedStr {
    fn clone(&self) -> (copy: ValidatedStr)
        ensures
            copy@ == self@,
    {
        proof {
            use_type_invariant(self);
        }
        ValidatedStr { value: self.value.clone() }
    }
}

impl PartialEq for ValidatedStr {
    fn eq(&self, other: &ValidatedStr) -> (r: bool) {
        self.value == other.value
    }
}

impl Eq for ValidatedStr {

}

impl vstd::std_specs::cmp::PartialEqSpecImpl for ValidatedStr {
    open spec fn obeys_eq_spec() -> bool {
        true
    }

    open spec fn eq_spec(&self, other: &ValidatedStr) -> bool {
        self@ == other@
    }
}

impl ValidatedStr {
    #[verifier::type_invariant]
    spec fn well_formed(self) -> bool {
        validated_text(self.value@) == Ok::<Seq<char>, BookError>(self.value@)
    }

    /// The text.
    pub fn as_str(&self) -> (text: &str)
        ensures
            text@ == self@,
            validated_text(text@) == Ok::<Seq<char>, BookError>(text@),
    {
        proof {
            use_type_invariant(self);
        }
        self.value.as_str()
    }

    /// Takes a text as free text, without the white space around it.
    pub fn from_str(s: &str) -> (res: Result<ValidatedStr, BookError>)
        ensures
            match validated_text(s@) {
                Ok(text) => res matches Ok(value) && value@ == text,
                Err(e) => res matches Err(err) && err == e,
            },
    {
        let trimmed = trim(s);
        if trimmed.is_empty() {
            return Err(BookError::EmptyString);
        }
        match regex_is_match(r"^[\p{L}\p{N}\p{P}\s]+$", trimmed) {
            Some(true) => {
                proof {
                    lemma_trim_idempotent(s@);
                }
                Ok(ValidatedStr { value: trimmed.to_owned() })
            },
            _ => Err(BookError::InvalidCharacters),
        }
    }

    /// Takes a text as free text, without the white space around it.
    pub fn try_from(value: String) -> (res: Result<ValidatedStr, BookError>)
        ensures
            match validated_text(value@) {
                Ok(text) => res matches Ok(v) && v@ == text,
                Err(e) => res matches Err(err) && err == e,
            },
    {
        ValidatedStr::from_str(value.as_str())
    }

    /// A copy of the text.
    pub fn to_string(&self) -> (text: String)
        ensures
            text@ == self@,
    {
        self.value.clone()
    }

    /// Gives up the text.
    pub fn into_string(self) -> (text: String)
        ensures
            text@ == self@,
    {
        self.value
    }
}

/// The characters that make up the number of an ISBN: the ASCII digits and
/// the check character `X`.
pub open spec fn is_isbn_digit(c: char) -> bool {
    ('0' <= c && c <= '9') || c == 'X'
}

/// The characters of `s` that belong to the number of an ISBN.
pub open spec fn isbn_digits(s: Seq<char>) -> Seq<char> {
    s.filter(|c: char| is_isbn_digit(c))
}

/// `s` without the occurrences of `pattern`, found from left to right and
/// not overlapping.
pub open spec fn without(s: Seq<char>, pattern: Seq<char>) -> Seq<char>
    decreases s.len(),
{
    if pattern.len() == 0 || s.len() == 0 {
        s
    } else if pattern.is_prefix_of(s) {
        without(s.skip(pattern.len() as int), pattern)
    } else {
        seq![s[0]] + without(s.drop_first(), pattern)
    }
}

/// The canonical form of an ISBN text: the labels `ISBN-10`, `ISBN-13` and
/// `ISBN` are taken out, in this order, and of what is left only the
/// digits and `X` stay.
///
/// Only these three spellings of the label are known. Of a label in another
/// spelling that an ISBN may have, such as `ISBN13 ` or `ISBN 13: `, the
/// word `ISBN` is taken out and the digits `13` stay in the canonical form,
/// before those of the number.
pub open spec fn canonical_form(s: Seq<char>) -> Seq<char> {
    isbn_digits(without(without(without(s, "ISBN-10"@), "ISBN-13"@), "ISBN"@))
}

/// `text` without the occurrences of `pattern`.
fn remove_all(text: &Vec<char>, pattern: &Vec<char>) -> (out: Vec<char>)
    ensures
        out@ == without(text@, pattern@),
{
    let mut out: Vec<char> = Vec::new();
    if pattern.len() == 0 {
        let mut i: usize = 0;
        while i < text.len()
            invariant
                0 <= i <= text.len(),
                out@ == text@.take(i as int),
            decreases text.len() - i,
        {
            out.push(text[i]);
            assert(text@.take(i + 1) =~= text@.take(i as int).push(text@[i as int]));
            i += 1;
        }
        assert(text@.take(text.len() as int) =~= text@);
        return out;
    }
    let mut i: usize = 0;
    proof {
        assert(text@.skip(0) =~= text@);
        assert(out@ + without(text@, pattern@) =~= without(text@, pattern@));
    }
    while i < text.len()
        invariant
            0 <= i <= text.len(),
            pattern.len() > 0,
            without(text@, pattern@) == out@ + without(text@.skip(i as int), pattern@),
        decreases text.len() - i,
    {
        let ghost rest = text@.skip(i as int);
        if occurs_at(text, pattern, i) {
            proof {
                assert(rest.skip(pattern.len() as int) =~= text@.skip(i + pattern.len()));
            }
            i += pattern.len();
        } else {
            proof {
                assert(rest.drop_first() =~= text@.skip(i + 1));
                assert(out@.push(text@[i as int]) + without(text@.skip(i + 1), pattern@) =~= out@
                    + (seq![rest[0]] + without(rest.drop_first(), pattern@)));
            }
            out.push(text[i]);
            i += 1;
        }
    }
    proof {
        assert(out@ + without(text@.skip(i as int), pattern@) =~= out@);
    }
    out
}

/// An ISBN as it was written, without white space around it.
#[derive(Debug, Hash)]
pub struct Isbn {
    value: String,
}

impl View for Isbn {
    type V = Seq<char>;

    closed spec fn view(&self) -> Seq<char> {
        self.value@
    }
}

impl Clone for Isbn {
    fn clone(&self) -> (copy: Isbn)
        ensures
            copy@ == self@,
    {
        proof {
            use_type_invariant(self);
        }
        Isbn { value: self.value.clone() }
    }
}

impl PartialEq for Isbn {
    fn eq(&self, other: &Isbn) -> (r: bool) {
        self.value == other.value
    }
}

impl Eq for Isbn {

}

impl vstd::std_specs::cmp::PartialEqSpecImpl for Isbn {
    open spec fn obeys_eq_spec() -> bool {
        true
    }

    open spec fn eq_spec(&self, other: &Isbn) -> bool {
        self@ == other@
    }
}

impl Isbn {
    #[verifier::type_invariant]
    spec fn well_formed(self) -> bool {
        validated_isbn(self.value@) == Ok::<Seq<char>, BookError>(self.value@)
    }

    /// The text.
    pub fn as_str(&self) -> (text: &str)
        ensures
            text@ == self@,
            validated_isbn(text@) == Ok::<Seq<char>, BookError>(text@),
    {
        proof {
            use_type_invariant(self);
        }
        self.value.as_str()
    }

    /// The canonical form: the digits and `X` of the text, without hyphens
    /// and blanks and without the label where it is spelled `ISBN-10`,
    /// `ISBN-13` or `ISBN`. See [`canonical_form`] for a label in another
    /// spelling.
    pub fn canonical(&self) -> (text: String)
        ensures
            text@ == canonical_form(self@),
    {
        let chars = chars_of(self.value.as_str());
        let step1 = remove_all(&chars, &chars_of("ISBN-10"));
        let step2 = remove_all(&step1, &chars_of("ISBN-13"));
        let step3 = remove_all(&step2, &chars_of("ISBN"));
        let mut text = String::new();
        let mut i: usize = 0;
        proof {
            reveal(Seq::filter);
            assert(step3@.take(0) =~= Seq::<char>::empty());
        }
        while i < step3.len()
            invariant
                0 <= i <= step3.len(),
                text@ == isbn_digits(step3@.take(i as int)),
            decreases step3.len() - i,
        {
            let c = step3[i];
            proof {
                reveal(Seq::filter);
                assert(step3@.take(i + 1).drop_last() =~= step3@.take(i as int));
            }
            if ('0' <= c && c <= '9') || c == 'X' {
                push_char(&mut text, c);
            }
            i += 1;
        }
        proof {
            assert(step3@.take(step3.len() as int) =~= step3@);
        }
        text
    }

    /// Takes a text as an ISBN, without the white space around it.
    pub fn from_str(s: &str) -> (res: Result<Isbn, BookError>)
        ensures
            match validated_isbn(s@) {
                Ok(text) => res matches Ok(value) && value@ == text,
                Err(e) => res matches Err(err) && err == e,
            },
    {
        let trimmed = trim(s);
        match regex_is_match(
            r"^(?:ISBN[- ]?(?:10|13)?:? )?(?:\d{3}[- ]?)?\d{1,5}[- ]?\d{1,7}[- ]?\d{1,7}[- ]?[0-9X]$",
            trimmed,
        ) {
            Some(true) => {
                proof {
                    lemma_trim_idempotent(s@);
                }
                Ok(Isbn { value: trimmed.to_owned() })
            },
            _ => Err(BookError::InvalidIsbn),
        }
    }

    /// Takes a text as an ISBN, without the white space around it.
    pub fn try_from(value: String) -> (res: Result<Isbn, BookError>)
        ensures
            match validated_isbn(value@) {
                Ok(text) => res matches Ok(v) && v@ == text,
                Err(e) => res matches Err(err) && err == e,
            },
    {
        Isbn::from_str(value.as_str())
    }

    /// A copy of the text.
    pub fn to_string(&self) -> (text: String)
        ensures
            text@ == self@,
    {
        self.value.clone()
    }

    /// Gives up the text.
    pub fn into_string(self) -> (text: String)
        ensures
            text@ == self@,
    {
        self.value
    }
}

} // verus!
