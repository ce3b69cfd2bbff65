//! The configuration of the service.
//!
//! The values come from the environment; reading it belongs to the program
//! around this crate. What was read is handed over here, variable by
//! variable, as the text found or the reason why none was.

use crate::errors::AppError;
use crate::text::chars_of;
use vstd::prelude::*;

verus! {

/// Whether `c` is an ASCII digit.
pub open spec fn is_digit(c: char) -> bool {
    '0' <= c && c <= '9'
}

/// The number that an ASCII digit stands for.
pub open spec fn digit_value(c: char) -> nat {
    (c as nat - '0' as nat) as nat
}

/// The number that a sequence of ASCII digits spells in base ten.
pub open spec fn decimal_value(digits: Seq<char>) -> nat
    decreases digits.len(),
{
    if digits.len() == 0 {
        0
    } else {
        decimal_value(digits.drop_last()) * 10 + digit_value(digits.last())
    }
}

/// Every character of `s` is an ASCII digit.
pub open spec fn all_digits(s: Seq<char>) -> bool {
    forall|i: int| 0 <= i < s.len() ==> is_digit(#[trigger] s[i])
}

/// `text` without the `+` that it may start with.
pub open spec fn unsigned_part(text: Seq<char>) -> Seq<char> {
    if text.len() > 0 && text[0] == '+' {
        text.drop_first()
    } else {
        text
    }
}

/// The port that a text spells: an optional `+`, then digits only, at least
/// one, that spell a number up to 65535. Any other text spells none.
pub open spec fn port_of(text: Seq<char>) -> Option<u16> {
    let digits = unsigned_part(text);
    if digits.len() > 0 && all_digits(digits) && decimal_value(digits) <= u16::MAX {
        Some(decimal_value(digits) as u16)
    } else {
        None
    }
}

/// Why a text spells no port.
#[derive(Copy, Clone, Debug, PartialEq, Eq, Structural)]
pub enum PortFailure {
    /// The text is empty.
    Empty,
    /// A character is no digit, or there is no digit at all.
    InvalidDigit,
    /// The number does not fit 16 bits.
    PosOverflow,
}

impl PortFailure {
    /// The description of the failure.
    pub open spec fn description(self) -> Seq<char> {
        match self {
            PortFailure::Empty => "ParseIntError { kind: Empty }"@,
            PortFailure::InvalidDigit => "ParseIntError { kind: InvalidDigit }"@,
            PortFailure::PosOverflow => "ParseIntError { kind: PosOverflow }"@,
        }
    }

    /// The description of the failure.
    pub fn to_string(self) -> (text: String)
        ensures
            text@ == self.description(),
    {
        match self {
            PortFailure::Empty => String::from_str("ParseIntError { kind: Empty }"),
            PortFailure::InvalidDigit => String::from_str("ParseIntError { kind: InvalidDigit }"),
            PortFailure::PosOverflow => String::from_str("ParseIntError { kind: PosOverflow }"),
        }
    }
}

/// What reading `digits` from left to right gives, with `so_far` read
/// before them: the number, or the first thing that is wrong. A character
/// that is no digit is found before the overflow that it would cause.
pub open spec fn digits_reading(digits: Seq<char>, so_far: nat) -> Result<nat, PortFailure>
    decreases digits.len(),
{
    if digits.len() == 0 {
        Ok(so_far)
    } else if !is_digit(digits[0]) {
        Err(PortFailure::InvalidDigit)
    } else if so_far * 10 + digit_value(digits[0]) > u16::MAX {
        Err(PortFailure::PosOverflow)
    } else {
        digits_reading(digits.drop_first(), so_far * 10 + digit_value(digits[0]))
    }
}

/// What reading a text as a port gives: the port, or why it spells none.
pub open spec fn port_reading(text: Seq<char>) -> Result<u16, PortFailure> {
    if text.len() == 0 {
        Err(PortFailure::Empty)
    } else if unsigned_part(text).len() == 0 {
        Err(PortFailure::InvalidDigit)
    } else {
        match digits_reading(unsigned_part(text), 0) {
            Ok(port) => Ok(port as u16),
            Err(e) => Err(e),
        }
    }
}

/// Digits that follow do not make a number smaller.
proof fn lemma_decimal_value_grows(front: Seq<char>, back: Seq<char>)
    requires
        all_digits(back),
    ensures
        decimal_value(front + back) >= decimal_value(front),
    decreases back.len(),
{
    if back.len() == 0 {
        assert(front + back =~= front);
    } else {
        assert((front + back).drop_last() =~= front + back.drop_last());
        assert forall|i: int| 0 <= i < back.drop_last().len() implies is_digit(
            #[trigger] back.drop_last()[i],
        ) by {
            assert(back.drop_last()[i] == back[i]);
        }
        lemma_decimal_value_grows(front, back.drop_last());
    }
}

/// Reading digits from left to right gives the number that they spell
/// together with what was read before, if that is a port.
proof fn lemma_digits_reading(front: Seq<char>, digits: Seq<char>)
    requires
        all_digits(front),
        decimal_value(front) <= u16::MAX,
    ensures
        digits_reading(digits, decimal_value(front)) is Ok <==> all_digits(digits) && decimal_value(
            front + digits,
        ) <= u16::MAX,
        digits_reading(digits, decimal_value(front)) matches Ok(value) ==> value == decimal_value(
            front + digits,
        ),
    decreases digits.len(),
{
    if digits.len() == 0 {
        assert(front + digits =~= front);
    } else if !is_digit(digits[0]) {
    } else {
        let next = front.push(digits[0]);
        let rest = digits.drop_first();
        assert(next.drop_last() =~= front);
        assert(next + rest =~= front + digits);
        assert(all_digits(rest) <==> all_digits(digits)) by {
            if all_digits(rest) {
                assert forall|i: int| 0 <= i < digits.len() implies is_digit(
                    #[trigger] digits[i],
                ) by {
                    if i > 0 {
                        assert(digits[i] == rest[i - 1]);
                    }
                }
            }
            if all_digits(digits) {
                assert forall|i: int| 0 <= i < rest.len() implies is_digit(#[trigger] rest[i]) by {
                    assert(rest[i] == digits[i + 1]);
                }
            }
        }
        if decimal_value(next) > u16::MAX {
            if all_digits(rest) {
                lemma_decimal_value_grows(next, rest);
            }
        } else {
            assert forall|i: int| 0 <= i < next.len() implies is_digit(#[trigger] next[i]) by {
                if i < front.len() {
                    assert(next[i] == front[i]);
                }
            }
            lemma_digits_reading(next, rest);
        }
    }
}

/// Reading a text as a port succeeds exactly on the texts that spell a
/// port, and gives that port.
pub proof fn lemma_port_reading_is_port_of(text: Seq<char>)
    ensures
        match port_of(text) {
            Some(port) => port_reading(text) == Ok::<u16, PortFailure>(port),
            None => port_reading(text) is Err,
        },
{
    let digits = unsigned_part(text);
    assert(Seq::<char>::empty() + digits =~= digits);
    lemma_digits_reading(Seq::empty(), digits);
}

/// Reads a text as a port.
#[verifier::loop_isolation(false)]
pub fn parse_port(text: &str) -> (res: Result<u16, PortFailure>)
    ensures
        res == port_reading(text@),
        match port_of(text@) {
            Some(port) => res == Ok::<u16, PortFailure>(port),
            None => res is Err,
        },
{
    proof {
        lemma_port_reading_is_port_of(text@);
    }
    let cs = chars_of(text);
    if cs.len() == 0 {
        return Err(PortFailure::Empty);
    }
    let start: usize = if cs[0] == '+' {
        1
    } else {
        0
    };
    if start == cs.len() {
        return Err(PortFailure::InvalidDigit);
    }
    let mut value: u32 = 0;
    let mut i: usize = start;
    proof {
        assert(cs@.skip(1) =~= cs@.drop_first());
        assert(cs@.skip(0) =~= cs@);
    }
    while i < cs.len()
        invariant
            start <= i <= cs.len(),
            value <= u16::MAX,
            digits_reading(cs@.skip(start as int), 0) == digits_reading(
                cs@.skip(i as int),
                value as nat,
            ),
        decreases cs.len() - i,
    {
        let c = cs[i];
        proof {
            assert(cs@.skip(i as int).drop_first() =~= cs@.skip(i + 1));
        }
        if !('0' <= c && c <= '9') {
            return Err(PortFailure::InvalidDigit);
        }
        let digit: u32 = c as u32 - '0' as u32;
        if value * 10 + digit > 65535 {
            return Err(PortFailure::PosOverflow);
        }
        value = value * 10 + digit;
        i += 1;
    }
    Ok(value as u16)
}

/// The configuration of the service.
#[derive(Debug, Clone)]
pub struct Config {
    pub database_url: String,
    pub api_port: u16,
    pub log_level: String,
}

/// The view of a variable that was read: its text, or `None` where it could
/// not be read.
pub open spec fn variable_view(variable: Result<String, String>) -> Option<Seq<char>> {
    match variable {
        Ok(text) => Some(text@),
        Err(_) => None,
    }
}

impl Config {
    /// The configuration that the three variables `DATABASE_URL`,
    /// `API_PORT` and `RUST_LOG` give. Each comes as its text, or as the
    /// reason why it could not be read.
    ///
    /// The variables are looked at in that order. The first that is
    /// missing, or the port that spells no port, is an `EnvVarLoad`: a
    /// missing variable is reported with the reason that came with it, a
    /// text that spells no port with the description of what is wrong.
    pub fn from_variables(
        database_url: Result<String, String>,
        api_port: Result<String, String>,
        log_level: Result<String, String>,
    ) -> (res: Result<Config, AppError>)
        ensures
            match (variable_view(database_url), variable_view(api_port), variable_view(log_level)) {
                (None, _, _) => res matches Err(AppError::EnvVarLoad(why)) && why@
                    == database_url->Err_0@,
                (Some(_), None, _) => res matches Err(AppError::EnvVarLoad(why)) && why@
                    == api_port->Err_0@,
                (Some(url), Some(port_text), level) => match port_reading(port_text) {
                    Err(failure) => res matches Err(AppError::EnvVarLoad(why)) && why@
                        == failure.description(),
                    Ok(port) => match level {
                        None => res matches Err(AppError::EnvVarLoad(why)) && why@
                            == log_level->Err_0@,
                        Some(level) => res matches Ok(config) && config.database_url@ == url
                            && config.api_port == port && config.log_level@ == level,
                    },
                },
            },
    {
        let database_url = match database_url {
            Ok(text) => text,
            Err(why) => { return Err(AppError::EnvVarLoad(why)); },
        };
        let port_text = match api_port {
            Ok(text) => text,
            Err(why) => { return Err(AppError::EnvVarLoad(why)); },
        };
        let api_port = match parse_port(port_text.as_str()) {
            Ok(port) => port,
            Err(failure) => { return Err(AppError::EnvVarLoad(failure.to_string())); },
        };
        let log_level = match log_level {
            Ok(text) => text,
            Err(why) => { return Err(AppError::EnvVarLoad(why)); },
        };
        Ok(Config { database_url, api_port, log_level })
    }
}

} // verus!
