//! Issuing, validating and revoking API keys.

use crate::api_keys::api_keys_domain::{
    decoded, has_hash_shape, hash_verdict, is_deleting, lemma_decode_encode, lookup, separator,
    starts_with_dollar, ApiKey, ApiKeyRepository, ApiKeyView, EncryptedApiKey,
};
use crate::api_keys::errors::ApiKeyError;
use crate::text::chars_of;
use prefixed_api_key::PrefixedApiKeyController;
use vstd::prelude::*;

verus! {

/// Number of random bytes behind an id; an id has at least as many
/// characters.
pub const ID_LENGTH: usize = 6;

/// Number of random bytes behind a token; a token has at least as many
/// characters.
pub const TOKEN_LENGTH: usize = 25;

/// The characters that ids and tokens are made of: ASCII letters and digits.
pub open spec fn is_token_char(c: char) -> bool {
    ('0' <= c && c <= '9') || ('a' <= c && c <= 'z') || ('A' <= c && c <= 'Z')
}

/// Every character of `s` is an ASCII letter or digit.
pub open spec fn is_token_text(s: Seq<char>) -> bool {
    forall|i: int| 0 <= i < s.len() ==> is_token_char(#[trigger] s[i])
}

impl ApiKeyView {
    /// The keys that the generator hands out: long enough, and made of
    /// letters and digits only.
    pub open spec fn is_issuable(self) -> bool {
        &&& self.id.len() >= ID_LENGTH
        &&& self.token.len() >= TOKEN_LENGTH
        &&& is_token_text(self.id)
        &&& is_token_text(self.token)
    }
}

/// Every key that the generator hands out survives a round trip through its
/// text form.
pub proof fn lemma_issued_key_round_trips(key: ApiKeyView)
    requires
        key.is_issuable(),
    ensures
        key.is_parseable(),
        decoded(key.encoding()) == Some(key),
{
    assert(!key.id.contains(separator())) by {
        if key.id.contains(separator()) {
            let i = choose|i: int| 0 <= i < key.id.len() && key.id[i] == separator();
            assert(is_token_char(key.id[i]));
        }
    }
    lemma_decode_encode(key);
}

/// Whether `c` is an ASCII letter or digit.
fn token_char(c: char) -> (b: bool)
    ensures
        b == is_token_char(c),
{
    ('0' <= c && c <= '9') || ('a' <= c && c <= 'z') || ('A' <= c && c <= 'Z')
}

/// Whether `s` has at least `least` characters, all of them ASCII letters or
/// digits.
fn token_text(s: &str, least: usize) -> (b: bool)
    ensures
        b == (s@.len() >= least && is_token_text(s@)),
{
    let cs = chars_of(s);
    if cs.len() < least {
        return false;
    }
    let mut i: usize = 0;
    while i < cs.len()
        invariant
            0 <= i <= cs.len(),
            cs@ == s@,
            least <= cs.len(),
            forall|j: int| 0 <= j < i ==> is_token_char(#[trigger] cs@[j]),
        decreases cs.len() - i,
    {
        if !token_char(cs[i]) {
            assert(!is_token_char(s@[i as int]));
            return false;
        }
        i += 1;
    }
    true
}

/// Draws the two random parts of a key from `prefixed_api_key`: a controller
/// built with the given prefix, the operating system's random source and the
/// two byte counts, then `try_generate_key`. The parts come base58-encoded.
///
/// Trusted only for its failures: a builder error comes back as
/// `Configuration`, a failure of the random source as `Generation`. Nothing
/// is claimed about the parts themselves.
#[verifier::external_body]
fn draw_tokens(prefix: &str, id_bytes: usize, token_bytes: usize) -> (res: Result<
    (String, String),
    ApiKeyError,
>)
    ensures
        res matches Err(e) ==> e is Configuration || e is Generation,
{
    let controller = PrefixedApiKeyController::configure()
        .prefix(prefix.to_string())
        .seam_defaults()
        .short_token_length(id_bytes)
        .long_token_length(token_bytes)
        .finalize()
        .map_err(|e| ApiKeyError::Configuration(e.to_string()))?;
    let key = controller.try_generate_key().map_err(|e| ApiKeyError::Generation(e.to_string()))?;
    Ok((key.short_token().to_string(), key.long_token().to_string()))
}

/// Source of fresh API keys.
pub struct ApiKeyGenerator;

impl ApiKeyGenerator {
    /// A fresh key: an id over at least [`ID_LENGTH`] characters and a token
    /// over at least [`TOKEN_LENGTH`], both drawn from the operating system's
    /// secure random source. Touches no store.
    ///
    /// Fails with `Generation` where the random source does, and with
    /// `Configuration` where the generator could not be set up.
    pub fn generate() -> (res: Result<ApiKey, ApiKeyError>)
        ensures
            res matches Ok(key) ==> key@.is_issuable(),
            res matches Err(e) ==> e is Configuration || e is Generation,
    {
        match draw_tokens("LibraryApi", ID_LENGTH, TOKEN_LENGTH) {
            Ok((id, token)) => ApiKeyGenerator::from_tokens(id, token),
            Err(e) => Err(e),
        }
    }

    /// A fresh key together with the digest of its token: all of issuing a
    /// key that comes before the digest is stored.
    pub fn issue() -> (res: Result<(ApiKey, EncryptedApiKey), ApiKeyError>)
        ensures
            res matches Ok(issued) ==> {
                &&& issued.0@.is_issuable()
                &&& has_hash_shape(issued.1@)
                &&& starts_with_dollar(issued.1@)
                &&& hash_verdict(issued.1@, issued.0@.token) == Some(true)
            },
            res matches Err(e) ==> e is Configuration || e is Generation || e is Encryption,
    {
        let api_key = match ApiKeyGenerator::generate() {
            Ok(api_key) => api_key,
            Err(e) => { return Err(e); },
        };
        match api_key.encrypt_token() {
            Ok(encrypted) => Ok((api_key, encrypted)),
            Err(e) => Err(e),
        }
    }

    /// Makes a key of two freshly drawn parts, and refuses parts that are
    /// too short or hold anything but ASCII letters and digits: such a key
    /// could not be told apart from its separators.
    pub fn from_tokens(id: String, token: String) -> (res: Result<ApiKey, ApiKeyError>)
        ensures
            (ApiKeyView { id: id@, token: token@ }).is_issuable() ==> res is Ok,
            res matches Ok(key) ==> key@ == (ApiKeyView { id: id@, token: token@ })
                && key@.is_issuable(),
            res matches Err(e) ==> e matches ApiKeyError::Generation(why) && why@
                == "the generated key has not the expected form"@,
    {
        if token_text(id.as_str(), ID_LENGTH) && token_text(token.as_str(), TOKEN_LENGTH) {
            Ok(ApiKey { id, token })
        } else {
            Err(
                ApiKeyError::Generation(
                    String::from_str("the generated key has not the expected form"),
                ),
            )
        }
    }
}

/// Whether a secret is accepted against what is stored under its id: a
/// record exists, it holds a digest, and the secret matches the digest.
pub open spec fn credential_accepted(stored: Option<Seq<char>>, secret: Seq<char>) -> bool {
    stored matches Some(digest) && has_hash_shape(digest) && hash_verdict(digest, secret) == Some(
        true,
    )
}

/// Whether `res` is the verdict on a secret, given what is stored under its
/// id. The cases are tried in this order: no record, a record that holds no
/// digest, a digest that cannot be read, a secret that does not match.
pub open spec fn is_verdict_on(
    res: Result<(), ApiKeyError>,
    stored: Option<Seq<char>>,
    secret: Seq<char>,
) -> bool {
    match stored {
        None => res matches Err(ApiKeyError::NotFound),
        Some(digest) => if !has_hash_shape(digest) {
            res matches Err(ApiKeyError::BadEncryption(_))
        } else {
            match hash_verdict(digest, secret) {
                None => res matches Err(ApiKeyError::HashVerification(_)),
                Some(false) => res matches Err(ApiKeyError::Invalid),
                Some(true) => res is Ok,
            }
        },
    }
}

/// The view of what a lookup returned.
pub open spec fn stored_view(stored: Option<String>) -> Option<Seq<char>> {
    match stored {
        Some(digest) => Some(digest@),
        None => None,
    }
}

/// The verdict on a key, given what the store holds under its id.
///
/// Nothing is cached: every call checks the secret against the digest anew.
pub fn check_credential(stored: Option<String>, api_key: &ApiKey) -> (res: Result<(), ApiKeyError>)
    ensures
        is_verdict_on(res, stored_view(stored), api_key@.token),
        res is Ok <==> credential_accepted(stored_view(stored), api_key@.token),
{
    match stored {
        None => Err(ApiKeyError::NotFound),
        Some(raw_encrypted) => {
            match EncryptedApiKey::from_encrypt(raw_encrypted.as_str()) {
                Err(e) => Err(e),
                Ok(encrypted) => {
                    match encrypted.verify_from_raw(api_key.token().as_str()) {
                        Err(e) => Err(e),
                        Ok(is_valid) => {
                            if !is_valid {
                                Err(ApiKeyError::Invalid)
                            } else {
                                Ok(())
                            }
                        },
                    }
                },
            }
        },
    }
}

/// A secret other than the one that matches the stored digest is refused as
/// `Invalid`, not as `NotFound`.
pub proof fn lemma_wrong_secret_is_invalid(
    records: Map<Seq<char>, Seq<char>>,
    id: Seq<char>,
    secret: Seq<char>,
    res: Result<(), ApiKeyError>,
)
    requires
        records.contains_key(id),
        has_hash_shape(records[id]),
        hash_verdict(records[id], secret) == Some(false),
        is_verdict_on(res, lookup(records, id), secret),
    ensures
        res matches Err(ApiKeyError::Invalid),
{
}

/// Whether `res` is the answer to validating `key` against a store that
/// holds `records`: the verdict on the key, or, in a store that may fail,
/// `DatabaseError`.
pub open spec fn is_validation(
    res: Result<(), ApiKeyError>,
    records: Map<Seq<char>, Seq<char>>,
    may_fail: bool,
    key: ApiKeyView,
) -> bool {
    if res matches Err(ApiKeyError::DatabaseError(_)) {
        may_fail
    } else {
        is_verdict_on(res, lookup(records, key.id), key.token)
    }
}

/// Whether a failure to create a key is one that can come, with a store
/// that held `before`: the generator or the hasher failed, the id drawn was
/// taken, which takes a store that held something, or the store itself
/// failed, which takes a store that may fail.
pub open spec fn is_creation_failure(
    e: ApiKeyError,
    before: Map<Seq<char>, Seq<char>>,
    may_fail: bool,
) -> bool {
    match e {
        ApiKeyError::Configuration(_) => true,
        ApiKeyError::Generation(_) => true,
        ApiKeyError::Encryption(_) => true,
        ApiKeyError::DuplicateId => exists|id: Seq<char>| before.contains_key(id),
        ApiKeyError::DatabaseError(_) => may_fail,
        _ => false,
    }
}

/// Whether the key `key` was created in a store that held `before` and
/// holds `after`: the key has the issued shape, its id was free, exactly one
/// record was added, under that id, the key is accepted against it, and
/// what was stored is not the token.
pub open spec fn is_created(
    key: ApiKeyView,
    before: Map<Seq<char>, Seq<char>>,
    after: Map<Seq<char>, Seq<char>>,
) -> bool {
    &&& key.is_issuable()
    &&& !before.contains_key(key.id)
    &&& after.contains_key(key.id)
    &&& after == before.insert(key.id, after[key.id])
    &&& credential_accepted(lookup(after, key.id), key.token)
    &&& after[key.id] != key.token
}

/// Whether `res` is the answer to creating a key, in a store that held
/// `before` and holds `after`. A failure leaves the records as they were.
pub open spec fn is_creation(
    res: Result<ApiKey, ApiKeyError>,
    before: Map<Seq<char>, Seq<char>>,
    after: Map<Seq<char>, Seq<char>>,
    may_fail: bool,
) -> bool {
    match res {
        Ok(key) => is_created(key@, before, after),
        Err(e) => after == before && is_creation_failure(e, before, may_fail),
    }
}

/// A key that was created validates, and validates again: in a store that
/// cannot fail, every validation of a created key succeeds for as long as
/// the records stay as the creation left them, and a validation is given
/// the store to read only.
pub proof fn lemma_created_key_validates(
    key: ApiKeyView,
    before: Map<Seq<char>, Seq<char>>,
    after: Map<Seq<char>, Seq<char>>,
    first: Result<(), ApiKeyError>,
    again: Result<(), ApiKeyError>,
)
    requires
        is_created(key, before, after),
        is_validation(first, after, false, key),
        is_validation(again, after, false, key),
    ensures
        first is Ok,
        again is Ok,
{
}

/// A key that was deleted validates no more: in a store that cannot fail
/// the deletion succeeds, the validation that follows answers `NotFound`,
/// whatever the secret, and a second deletion succeeds and changes nothing.
pub proof fn lemma_deleted_key_is_not_found(
    key: ApiKeyView,
    before: Map<Seq<char>, Seq<char>>,
    after: Map<Seq<char>, Seq<char>>,
    end: Map<Seq<char>, Seq<char>>,
    deleted: Result<(), ApiKeyError>,
    validated: Result<(), ApiKeyError>,
    deleted_again: Result<(), ApiKeyError>,
)
    requires
        is_deleting(deleted, before, after, false, key.id),
        is_validation(validated, after, false, key),
        is_deleting(deleted_again, after, end, false, key.id),
    ensures
        deleted is Ok,
        validated matches Err(ApiKeyError::NotFound),
        deleted_again is Ok,
        end == after,
{
    assert(after.remove(key.id) =~= after);
}

/// Decides whether a presented key is valid at this moment.
pub struct ApiKeyValidationService<R: ApiKeyRepository> {
    pub repo: R,
}

impl<R: ApiKeyRepository> ApiKeyValidationService<R> {
    /// Looks up the digest stored under the key's id and checks the key's
    /// token against it. The store is read, never changed.
    ///
    /// The result is the verdict on the key, see [`is_verdict_on`], unless
    /// the store itself fails; a store that cannot fail always gives the
    /// verdict.
    pub fn validate(&self, api_key: &ApiKey) -> (res: Result<(), ApiKeyError>)
        ensures
            is_validation(res, self.repo.records(), self.repo.may_fail(), api_key@),
    {
        match self.repo.find_encrypted(api_key.id().as_str()) {
            Ok(stored) => check_credential(stored, api_key),
            Err(e) => Err(e),
        }
    }
}

/// Issues new keys and stores their digests.
pub struct ApiKeyCreationService<R: ApiKeyRepository> {
    pub repo: R,
}

impl<R: ApiKeyRepository> ApiKeyCreationService<R> {
    /// Generates a key, hashes its token and stores the digest under its id.
    /// The key that comes back is the only copy of the token there will ever
    /// be: what is stored is a digest, never the token.
    ///
    /// On success exactly one record was added, under an id that was free,
    /// and the key is accepted against it. On failure the store is as it
    /// was. The write is the last step.
    pub fn create(&mut self) -> (res: Result<ApiKey, ApiKeyError>)
        ensures
            final(self).repo.may_fail() == old(self).repo.may_fail(),
            is_creation(
                res,
                old(self).repo.records(),
                final(self).repo.records(),
                old(self).repo.may_fail(),
            ),
    {
        let (api_key, encrypted) = match ApiKeyGenerator::issue() {
            Ok(issued) => issued,
            Err(e) => { return Err(e); },
        };
        proof {
            assert(is_token_char(api_key@.token[0]));
        }
        match self.repo.save(api_key.id().as_str(), &encrypted) {
            Ok(()) => Ok(api_key),
            Err(e) => Err(e),
        }
    }
}

/// Revokes keys.
pub struct ApiKeyDeletionService<R: ApiKeyRepository> {
    pub repo: R,
}

impl<R: ApiKeyRepository> ApiKeyDeletionService<R> {
    /// Removes the record under `id`. Where there is none, nothing happens
    /// and that is no failure. Only the store itself can fail.
    pub fn delete(&mut self, id: &str) -> (res: Result<(), ApiKeyError>)
        ensures
            final(self).repo.may_fail() == old(self).repo.may_fail(),
            is_deleting(
                res,
                old(self).repo.records(),
                final(self).repo.records(),
                old(self).repo.may_fail(),
                id@,
            ),
    {
        self.repo.delete(id)
    }
}

} // verus!
