//! The request guard: from the value of the authorization header to a decision
//! to let the request through or to reject it.
//!
//! A request carries its key as `Authorization: ApiKey <key>`. The guard has
//! no state of its own. It rejects a request without such a header, rejects
//! one whose key is not an encoded key, and otherwise asks the validation
//! service. Whatever makes the validation fail, the answer is the same: the
//! guard does not tell an unknown id from a wrong secret.

use crate::api_keys::api_keys_application::{
    credential_accepted, is_created, is_token_char, lemma_issued_key_round_trips,
    ApiKeyValidationService,
};
use crate::api_keys::api_keys_domain::{
    decoded, key_prefix, lookup, ApiKey, ApiKeyRepository, ApiKeyView,
};
use crate::api_keys::errors::ApiKeyError;
use crate::text::{
    chars_of, lemma_trim_end_keeps, lemma_trim_end_shape, lemma_trimmed_unchanged, occurs_at,
    trim, trimmed,
};
use vstd::prelude::*;

verus! {

/// Why the guard rejected a request.
#[derive(Copy, Clone, Debug, PartialEq, Eq, Structural)]
pub enum AuthFailure {
    /// No authorization header, or not one of the scheme `ApiKey`.
    AuthenticationRequired,
    /// The header holds no encoded key.
    InvalidCredentialFormat,
    /// The key was not accepted.
    Denied,
}

impl AuthFailure {
    /// The HTTP status that answers the rejection.
    pub open spec fn spec_code(self) -> u16 {
        match self {
            AuthFailure::AuthenticationRequired => 401,
            AuthFailure::InvalidCredentialFormat => 422,
            AuthFailure::Denied => 401,
        }
    }

    /// The HTTP status that answers the rejection.
    #[verifier::when_used_as_spec(spec_code)]
    pub fn code(self) -> (code: u16)
        ensures
            code == self.spec_code(),
    {
        match self {
            AuthFailure::AuthenticationRequired => 401,
            AuthFailure::InvalidCredentialFormat => 422,
            AuthFailure::Denied => 401,
        }
    }

    /// The message that answers the rejection.
    pub open spec fn spec_message(self) -> Seq<char> {
        match self {
            AuthFailure::AuthenticationRequired =>
            "Se requiere autenticación. Usar formato 'ApiKey YOURKEY'"@,
            AuthFailure::InvalidCredentialFormat => "ApiKey inválida: ApiKey mal formada"@,
            AuthFailure::Denied => "Error al validar ApiKey: autenticación fallida"@,
        }
    }

    /// The message that answers the rejection.
    pub fn message(self) -> (message: String)
        ensures
            message@ == self.spec_message(),
    {
        match self {
            AuthFailure::AuthenticationRequired => String::from_str(
                "Se requiere autenticación. Usar formato 'ApiKey YOURKEY'",
            ),
            AuthFailure::InvalidCredentialFormat => String::from_str(
                "ApiKey inválida: ApiKey mal formada",
            ),
            AuthFailure::Denied => String::from_str(
                "Error al validar ApiKey: autenticación fallida",
            ),
        }
    }
}

/// A rejection, as the HTTP boundary answers it.
#[derive(Debug)]
pub struct AuthError {
    pub reason: AuthFailure,
    pub message: String,
    pub code: u16,
}

impl AuthError {
    /// The rejection has the message and the status that belong to `reason`
    /// and nothing else: two rejections for one reason look the same.
    pub open spec fn is_rejection(self, reason: AuthFailure) -> bool {
        &&& self.reason == reason
        &&& self.message@ == reason.spec_message()
        &&& self.code == reason.spec_code()
    }

    /// The rejection for a reason.
    pub fn new(reason: AuthFailure) -> (e: AuthError)
        ensures
            e.is_rejection(reason),
    {
        AuthError { reason, message: reason.message(), code: reason.code() }
    }
}

/// The scheme that the authorization header has to start with, the blank
/// included.
pub open spec fn scheme() -> Seq<char> {
    "ApiKey "@
}

/// The text of the key that a header value carries, if the value is of the
/// scheme `ApiKey`: all that follows the scheme, without the white space
/// around it. The scheme is taken away once: a header that repeats it
/// carries a text that starts with `ApiKey`, which is no encoded key.
pub open spec fn header_key(header: Seq<char>) -> Option<Seq<char>> {
    if scheme().is_prefix_of(header) {
        Some(trimmed(header.skip(scheme().len() as int)))
    } else {
        None
    }
}

/// What an authorization header holds.
#[derive(Debug)]
pub enum AuthHeader<'a> {
    /// The text of a key.
    ApiKey(&'a str),
    /// Nothing that the guard can use.
    Missing,
}

impl<'a> AuthHeader<'a> {
    /// Reads the value of an authorization header.
    pub fn from_header_value(header: Option<&'a str>) -> (res: AuthHeader<'a>)
        ensures
            match header {
                Some(value) => match header_key(value@) {
                    Some(key) => res matches AuthHeader::ApiKey(raw) && raw@ == key,
                    None => res is Missing,
                },
                None => res is Missing,
            },
    {
        match header {
            Some(header) => {
                let cs = chars_of(header);
                let prefix = chars_of("ApiKey ");
                proof {
                    assert(cs@.skip(0) =~= cs@);
                }
                if !occurs_at(&cs, &prefix, 0) {
                    return AuthHeader::Missing;
                }
                let raw_api_key = trim(header.substring_char(prefix.len(), cs.len()));
                proof {
                    assert(header@.subrange(prefix@.len() as int, cs.len() as int) =~= header@.skip(
                        prefix@.len() as int,
                    ));
                }
                AuthHeader::ApiKey(raw_api_key)
            },
            None => AuthHeader::Missing,
        }
    }
}

/// Whether `res` is a rejection for the given reason.
pub open spec fn rejected_as(res: Result<(), AuthError>, reason: AuthFailure) -> bool {
    res matches Err(e) && e.is_rejection(reason)
}

/// Whether `res` is the answer of the guard for the text of a key, against
/// the records of the store.
///
/// A text that is no encoded key is rejected as `InvalidCredentialFormat`. A
/// key passes only if it is accepted against the records. Every other
/// answer is the one rejection `Denied`: it is the answer for a key that is
/// not accepted, and, where `may_fail` holds, it may be the answer for any
/// key, since a store that fails lets nobody through.
pub open spec fn is_answer_for_key(
    res: Result<(), AuthError>,
    raw_api_key: Seq<char>,
    records: Map<Seq<char>, Seq<char>>,
    may_fail: bool,
) -> bool {
    match decoded(raw_api_key) {
        None => rejected_as(res, AuthFailure::InvalidCredentialFormat),
        Some(key) => if credential_accepted(lookup(records, key.id), key.token) {
            res is Ok || (may_fail && rejected_as(res, AuthFailure::Denied))
        } else {
            rejected_as(res, AuthFailure::Denied)
        },
    }
}

/// Whether `res` is the answer of the guard for a request with the given
/// authorization header, against the records of the store: a header that
/// carries the text of a key is answered as that text is, anything else is
/// rejected as `AuthenticationRequired`.
pub open spec fn is_answer_for_header(
    res: Result<(), AuthError>,
    auth_header: Option<&str>,
    records: Map<Seq<char>, Seq<char>>,
    may_fail: bool,
) -> bool {
    match auth_header {
        Some(value) => match header_key(value@) {
            Some(raw_api_key) => is_answer_for_key(res, raw_api_key, records, may_fail),
            None => rejected_as(res, AuthFailure::AuthenticationRequired),
        },
        None => rejected_as(res, AuthFailure::AuthenticationRequired),
    }
}

/// Whether `res` is what the guard makes of an authorization header before
/// any store is asked: the key to validate, or the rejection of a request
/// that carries none.
pub open spec fn is_reading_of(res: Result<ApiKey, AuthError>, auth_header: Option<&str>) -> bool {
    match auth_header {
        Some(value) => match header_key(value@) {
            Some(raw_api_key) => match decoded(raw_api_key) {
                Some(key) => res matches Ok(k) && k@ == key,
                None => res matches Err(e) && e.is_rejection(AuthFailure::InvalidCredentialFormat),
            },
            None => res matches Err(e) && e.is_rejection(AuthFailure::AuthenticationRequired),
        },
        None => res matches Err(e) && e.is_rejection(AuthFailure::AuthenticationRequired),
    }
}

/// The first step of the guard: reads the key that a request presents, or
/// rejects the request at once. No store is touched.
///
/// Together with [`decide`] this is the whole guard for a caller that does
/// the lookup on its own: it validates the key that comes back and hands
/// the outcome to `decide`.
pub fn read_header(auth_header: Option<&str>) -> (res: Result<ApiKey, AuthError>)
    ensures
        is_reading_of(res, auth_header),
{
    match AuthHeader::from_header_value(auth_header) {
        AuthHeader::ApiKey(raw_key) => match ApiKey::from_str(raw_key) {
            Ok(key) => Ok(key),
            Err(_) => Err(AuthError::new(AuthFailure::InvalidCredentialFormat)),
        },
        AuthHeader::Missing => Err(AuthError::new(AuthFailure::AuthenticationRequired)),
    }
}

/// The guard's answer once the validation service has spoken: every failure
/// of the validation, whatever it is, becomes the same `Denied`.
pub fn decide(validation: Result<(), ApiKeyError>) -> (res: Result<(), AuthError>)
    ensures
        validation is Ok ==> res is Ok,
        validation is Err ==> rejected_as(res, AuthFailure::Denied),
{
    match validation {
        Ok(()) => Ok(()),
        Err(_) => Err(AuthError::new(AuthFailure::Denied)),
    }
}

/// A key of the issued shape that is presented as `ApiKey <text form>` is
/// read back as that key: nothing of it is taken for white space.
pub proof fn lemma_presented_key_is_read(key: ApiKeyView)
    requires
        key.is_issuable(),
    ensures
        header_key(scheme() + key.encoding()) == Some(key.encoding()),
        decoded(key.encoding()) == Some(key),
{
    reveal_strlit("ApiKey ");
    reveal_strlit("LibraryApi_");
    let text = key.encoding();
    let header = scheme() + text;
    assert(header.subrange(0, scheme().len() as int) =~= scheme());
    assert(header.skip(scheme().len() as int) =~= text);
    assert(text[0] == 'L');
    assert(text.last() == key.token.last());
    assert(is_token_char(key.token[key.token.len() - 1]));
    lemma_trimmed_unchanged(text);
    lemma_issued_key_round_trips(key);
}

/// A header that repeats the scheme carries no key: what follows the first
/// scheme starts with `ApiKey`, and no encoded key does.
pub proof fn lemma_repeated_scheme_is_no_key(header: Seq<char>)
    requires
        scheme().is_prefix_of(header),
        scheme().is_prefix_of(header.skip(scheme().len() as int)),
    ensures
        header_key(header) matches Some(text) && decoded(text) is None,
{
    reveal_strlit("ApiKey ");
    reveal_strlit("LibraryApi_");
    let rest = header.skip(scheme().len() as int);
    assert(rest[0] == rest.subrange(0, scheme().len() as int)[0]);
    assert(rest[0] == 'A');
    lemma_trim_end_shape(rest);
    lemma_trim_end_keeps(rest, 0);
    let text = trimmed(rest);
    assert(text[0] == 'A');
    if key_prefix().is_prefix_of(text) {
        assert(text.subrange(0, key_prefix().len() as int)[0] == 'L');
    }
}

/// A key that was created passes the guard: presented as
/// `ApiKey <text form>` to a guard over the store that it was created in,
/// where that store cannot fail, the request is let through.
pub proof fn lemma_created_key_passes(
    key: ApiKeyView,
    before: Map<Seq<char>, Seq<char>>,
    after: Map<Seq<char>, Seq<char>>,
    header: &str,
    res: Result<(), AuthError>,
)
    requires
        is_created(key, before, after),
        header@ == scheme() + key.encoding(),
        is_answer_for_header(res, Some(header), after, false),
    ensures
        res is Ok,
{
    lemma_presented_key_is_read(key);
}

/// The guard never tells why a key was not accepted: an unknown id, a wrong
/// secret and an unreadable digest are answered alike.
pub proof fn lemma_denials_are_alike(
    first: Result<(), AuthError>,
    second: Result<(), AuthError>,
)
    requires
        rejected_as(first, AuthFailure::Denied),
        rejected_as(second, AuthFailure::Denied),
    ensures
        first->Err_0.reason == second->Err_0.reason,
        first->Err_0.message@ == second->Err_0.message@,
        first->Err_0.code == second->Err_0.code,
{
}

/// Authentication by API key.
pub struct ApiKeyValidationStrategy<R: ApiKeyRepository> {
    pub validator: ApiKeyValidationService<R>,
}

impl<R: ApiKeyRepository> ApiKeyValidationStrategy<R> {
    /// Reads the text of a key and has it validated.
    ///
    /// A text that is no encoded key is rejected as
    /// `InvalidCredentialFormat` without a look at the store. A key that is
    /// accepted passes. Any other outcome is `Denied`, a failure of the
    /// store included.
    pub fn validate(&self, raw_api_key: &str) -> (res: Result<(), AuthError>)
        ensures
            is_answer_for_key(
                res,
                raw_api_key@,
                self.validator.repo.records(),
                self.validator.repo.may_fail(),
            ),
    {
        let key = match ApiKey::from_str(raw_api_key) {
            Ok(key) => key,
            Err(_) => { return Err(AuthError::new(AuthFailure::InvalidCredentialFormat)); },
        };
        decide(self.validator.validate(&key))
    }
}

/// The guard in front of the protected routes.
pub struct AuthMiddleware<R: ApiKeyRepository> {
    pub api_key_strategy: ApiKeyValidationStrategy<R>,
}

impl<R: ApiKeyRepository> AuthMiddleware<R> {
    /// Decides on a request from the value of its authorization header, if
    /// it has one.
    ///
    /// `Ok` lets the request through; the guard has then no further part in
    /// it. Without a header of the scheme `ApiKey` the request is rejected
    /// as `AuthenticationRequired`; with one, the decision is that of
    /// [`ApiKeyValidationStrategy::validate`] on the text of the key.
    pub fn auth_from_header(&self, auth_header: Option<&str>) -> (res: Result<(), AuthError>)
        ensures
            is_answer_for_header(
                res,
                auth_header,
                self.api_key_strategy.validator.repo.records(),
                self.api_key_strategy.validator.repo.may_fail(),
            ),
    {
        match AuthHeader::from_header_value(auth_header) {
            AuthHeader::ApiKey(raw_key) => self.api_key_strategy.validate(raw_key),
            AuthHeader::Missing => Err(AuthError::new(AuthFailure::AuthenticationRequired)),
        }
    }
}

} // verus!
