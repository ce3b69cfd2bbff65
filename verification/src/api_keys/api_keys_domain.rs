//! The API key, its text format, the digest of its secret and the store of
//! digests.
//!
//! An API key is a pair of a public id and a private token. Its text form is
//! `LibraryApi_<id>_<token>`. Only a digest of the token is ever stored.

use crate::api_keys::errors::ApiKeyError;
use crate::text::{chars_of, find_char, first_index_of, lemma_first_index_of, lemma_first_index_of_unique, occurs_at};
use email_pass::Password;
use vstd::prelude::*;

verus! {

/// The mathematical value of an [`ApiKey`]: the characters of its two parts.
pub struct ApiKeyView {
    pub id: Seq<char>,
    pub token: Seq<char>,
}

/// What every encoded key starts with: the name of the issuing system and the
/// first separator.
pub open spec fn key_prefix() -> Seq<char> {
    "LibraryApi_"@
}

/// The separator between the parts of an encoded key.
pub open spec fn separator() -> char {
    '_'
}

impl ApiKeyView {
    /// The text form of the key.
    pub open spec fn encoding(self) -> Seq<char> {
        key_prefix() + self.id + seq![separator()] + self.token
    }

    /// The keys whose text form can be read back: both parts hold something,
    /// and the id holds no separator.
    pub open spec fn is_parseable(self) -> bool {
        &&& self.id.len() > 0
        &&& self.token.len() > 0
        &&& !self.id.contains(separator())
    }
}

/// The key that a text encodes, if it encodes one. The id ends at the first
/// separator after the prefix; the token is all that follows it.
pub open spec fn decoded(s: Seq<char>) -> Option<ApiKeyView> {
    if key_prefix().is_prefix_of(s) {
        let rest = s.skip(key_prefix().len() as int);
        let cut = first_index_of(rest, separator());
        if 0 < cut && cut + 1 < rest.len() {
            Some(ApiKeyView { id: rest.take(cut), token: rest.skip(cut + 1) })
        } else {
            None
        }
    } else {
        None
    }
}

/// Decoding undoes encoding: the text form of a parseable key decodes to that
/// key.
pub proof fn lemma_decode_encode(key: ApiKeyView)
    requires
        key.is_parseable(),
    ensures
        decoded(key.encoding()) == Some(key),
{
    let s = key.encoding();
    let p = key_prefix();
    assert(s.subrange(0, p.len() as int) =~= p);
    let rest = s.skip(p.len() as int);
    assert(rest =~= key.id + seq![separator()] + key.token);
    assert forall|i: int| 0 <= i < key.id.len() implies rest[i] != separator() by {
        assert(rest[i] == key.id[i]);
    }
    lemma_first_index_of_unique(rest, separator(), key.id.len() as int);
    assert(rest.take(key.id.len() as int) =~= key.id);
    assert(rest.skip(key.id.len() as int + 1) =~= key.token);
}

/// Encoding undoes decoding: a text that decodes to a key is the text form of
/// that key, and the key is parseable.
pub proof fn lemma_encode_decode(s: Seq<char>)
    requires
        decoded(s) is Some,
    ensures
        decoded(s).unwrap().is_parseable(),
        decoded(s).unwrap().encoding() == s,
{
    let p = key_prefix();
    let rest = s.skip(p.len() as int);
    let cut = first_index_of(rest, separator());
    let key = decoded(s).unwrap();
    lemma_first_index_of(rest, separator());
    assert(!key.id.contains(separator())) by {
        if key.id.contains(separator()) {
            let i = choose|i: int| 0 <= i < key.id.len() && key.id[i] == separator();
            assert(rest[i] == key.id[i]);
        }
    }
    assert(s.subrange(0, p.len() as int) == p);
    assert(key.encoding() =~= s) by {
        assert(rest[cut] == separator());
        assert(rest =~= key.id + seq![separator()] + key.token);
        assert(s =~= s.subrange(0, p.len() as int) + rest);
    }
}

/// No two parseable keys share a text form.
pub proof fn lemma_encoding_injective(a: ApiKeyView, b: ApiKeyView)
    requires
        a.is_parseable(),
        b.is_parseable(),
        a.encoding() == b.encoding(),
    ensures
        a == b,
{
    lemma_decode_encode(a);
    lemma_decode_encode(b);
}

/// An API key as issued to a client.
#[derive(Debug)]
pub struct ApiKey {
    /// Public part: names the stored record.
    pub id: String,
    /// Private part: proves possession.
    pub token: String,
}

impl Clone for ApiKey {
    fn clone(&self) -> (copy: ApiKey)
        ensures
            copy@ == self@,
    {
        ApiKey { id: self.id.clone(), token: self.token.clone() }
    }
}

impl View for ApiKey {
    type V = ApiKeyView;

    open spec fn view(&self) -> ApiKeyView {
        ApiKeyView { id: self.id@, token: self.token@ }
    }
}

impl PartialEq for ApiKey {
    fn eq(&self, other: &ApiKey) -> (r: bool) {
        self.id == other.id && self.token == other.token
    }
}

impl Eq for ApiKey {

}

impl vstd::std_specs::cmp::PartialEqSpecImpl for ApiKey {
    open spec fn obeys_eq_spec() -> bool {
        true
    }

    open spec fn eq_spec(&self, other: &ApiKey) -> bool {
        self.id@ == other.id@ && self.token@ == other.token@
    }
}

impl ApiKey {
    /// The public part.
    pub fn id(&self) -> (id: &String)
        ensures
            id@ == self@.id,
    {
        &self.id
    }

    /// The private part.
    pub fn token(&self) -> (token: &String)
        ensures
            token@ == self@.token,
    {
        &self.token
    }

    /// The text form of the key: `LibraryApi_<id>_<token>`.
    pub fn to_string(&self) -> (text: String)
        ensures
            text@ == self@.encoding(),
    {
        proof {
            reveal_strlit("_");
        }
        let text = String::from_str("LibraryApi_").concat(self.id.as_str()).concat("_").concat(
            self.token.as_str(),
        );
        assert("_"@ =~= seq![separator()]);
        text
    }

    /// Reads a key back from its text form.
    ///
    /// The text has to start with `LibraryApi_`. The id is what follows up
    /// to the next `_`, the token all that comes after that `_`; neither may
    /// be empty. Any other text is refused as malformed.
    pub fn from_str(s: &str) -> (res: Result<ApiKey, ApiKeyError>)
        ensures
            res matches Ok(key) ==> decoded(s@) == Some(key@),
            res matches Err(e) ==> e is Malformed && decoded(s@) is None,
    {
        let cs = chars_of(s);
        let prefix = chars_of("LibraryApi_");
        proof {
            assert(cs@.skip(0) =~= cs@);
        }
        if !occurs_at(&cs, &prefix, 0) {
            return Err(ApiKeyError::Malformed);
        }
        let start = prefix.len();
        let cut = find_char(&cs, '_', start);
        if cut == start || cut >= cs.len() || cut + 1 >= cs.len() {
            return Err(ApiKeyError::Malformed);
        }
        let id = s.substring_char(start, cut).to_owned();
        let token = s.substring_char(cut + 1, cs.len()).to_owned();
        proof {
            let rest = s@.skip(start as int);
            assert(rest.take(cut - start) =~= s@.subrange(start as int, cut as int));
            assert(rest.skip(cut - start + 1) =~= s@.subrange(cut + 1, cs.len() as int));
        }
        Ok(ApiKey { id, token })
    }
}

/// Whether a text has the outer shape of a digest, as
/// `email_pass::Password::from_encrypt` judges it: it matches the pattern
/// `^\$([a-z\d]+)\$([a-z\d]+)\$.*`. Of the pattern the contracts use one
/// fact, that such a text starts with a dollar sign.
pub uninterp spec fn has_hash_shape(digest: Seq<char>) -> bool;

/// What checking a secret against a digest answers: `Some(true)` where the
/// secret matches, `Some(false)` where it does not, `None` where the digest
/// cannot be read. This is the answer of two calls in a row:
/// `email_pass::Password::from_encrypt` on the digest, then
/// `email_pass::Password::verify_from_raw` with the secret; `None` stands
/// for an error of either.
pub uninterp spec fn hash_verdict(digest: Seq<char>, secret: Seq<char>) -> Option<bool>;

/// Whether a text starts with a dollar sign, as every digest does.
pub open spec fn starts_with_dollar(text: Seq<char>) -> bool {
    text.len() > 0 && text[0] == '$'
}

/// Calls `email_pass::Password::from_encrypt` and hands out the message of
/// its error where it refuses the text. Trusted: it accepts the text exactly
/// where [`has_hash_shape`] holds, which is the name of its answer, and
/// what it accepts starts with a dollar sign, as its pattern demands.
#[verifier::external_body]
fn password_from_encrypt(digest: &str) -> (res: Result<(), String>)
    ensures
        res is Ok <==> has_hash_shape(digest@),
        res is Ok ==> starts_with_dollar(digest@),
{
    match Password::from_encrypt(digest) {
        Ok(_) => Ok(()),
        Err(e) => Err(e.to_string()),
    }
}

/// Hashes a secret with `email_pass::Password::to_encrypt_default` (bcrypt at
/// its default cost, with a fresh random salt) and hands out the digest text,
/// or the message of the hasher's error.
///
/// Trusted: a digest that comes back has the shape of a digest, starts with
/// a dollar sign, and verifying the same secret against it answers `true`.
/// Nothing is claimed about which digest comes back: the salt is random.
#[verifier::external_body]
fn password_encrypt(secret: &str) -> (res: Result<String, String>)
    ensures
        res matches Ok(digest) ==> has_hash_shape(digest@) && starts_with_dollar(digest@)
            && hash_verdict(digest@, secret@) == Some(true),
{
    match Password::from_raw(secret).to_encrypt_default() {
        Ok(encrypted) => Ok(encrypted.as_str().to_string()),
        Err(e) => Err(e.to_string()),
    }
}

/// Checks a secret against a digest: `email_pass::Password::from_encrypt`
/// on the digest, then `email_pass::Password::verify_from_raw` with the
/// secret. An error of either comes back as its message. Trusted: the
/// answer is the value that [`hash_verdict`] stands for.
#[verifier::external_body]
fn password_verify(digest: &str, secret: &str) -> (res: Result<bool, String>)
    ensures
        res matches Ok(matched) ==> hash_verdict(digest@, secret@) == Some(matched),
        res is Err ==> hash_verdict(digest@, secret@) is None,
{
    match Password::from_encrypt(digest) {
        Ok(encrypted) => encrypted.verify_from_raw(secret).map_err(|e| e.to_string()),
        Err(e) => Err(e.to_string()),
    }
}

/// The digest of a token: the only form in which a token is stored.
#[derive(Debug)]
pub struct EncryptedApiKey {
    value: String,
}

impl Clone for EncryptedApiKey {
    fn clone(&self) -> (copy: EncryptedApiKey)
        ensures
            copy@ == self@,
    {
        proof {
            use_type_invariant(self);
        }
        EncryptedApiKey { value: self.value.clone() }
    }
}

impl View for EncryptedApiKey {
    type V = Seq<char>;

    closed spec fn view(&self) -> Seq<char> {
        self.value@
    }
}

impl EncryptedApiKey {
    #[verifier::type_invariant]
    spec fn has_shape(self) -> bool {
        has_hash_shape(self.value@) && starts_with_dollar(self.value@)
    }

    /// Takes a stored text as a digest, if it has the shape of one.
    pub fn from_encrypt(encrypted: &str) -> (res: Result<EncryptedApiKey, ApiKeyError>)
        ensures
            has_hash_shape(encrypted@) ==> res is Ok,
            res matches Ok(key) ==> key@ == encrypted@ && has_hash_shape(encrypted@)
                && starts_with_dollar(encrypted@),
            res matches Err(e) ==> e is BadEncryption,
    {
        match password_from_encrypt(encrypted) {
            Ok(()) => Ok(EncryptedApiKey { value: encrypted.to_owned() }),
            Err(message) => Err(ApiKeyError::BadEncryption(message)),
        }
    }

    /// Whether `raw` is the secret that this digest was made of.
    pub fn verify_from_raw(&self, raw: &str) -> (res: Result<bool, ApiKeyError>)
        ensures
            res matches Ok(matched) ==> hash_verdict(self@, raw@) == Some(matched),
            res matches Err(e) ==> e is HashVerification && hash_verdict(self@, raw@) is None,
    {
        proof {
            use_type_invariant(self);
        }
        match password_verify(self.value.as_str(), raw) {
            Ok(matched) => Ok(matched),
            Err(message) => Err(ApiKeyError::HashVerification(message)),
        }
    }

    /// The digest text.
    pub fn as_str(&self) -> (text: &str)
        ensures
            text@ == self@,
            has_hash_shape(text@),
            starts_with_dollar(text@),
    {
        proof {
            use_type_invariant(self);
        }
        self.value.as_str()
    }
}

impl ApiKey {
    /// Hashes the token. The digest that comes back verifies against the
    /// token; which digest it is depends on a random salt.
    pub fn encrypt_token(&self) -> (res: Result<EncryptedApiKey, ApiKeyError>)
        ensures
            res matches Ok(key) ==> {
                &&& has_hash_shape(key@)
                &&& starts_with_dollar(key@)
                &&& hash_verdict(key@, self@.token) == Some(true)
            },
            res matches Err(e) ==> e is Encryption,
    {
        match password_encrypt(self.token.as_str()) {
            Ok(value) => Ok(EncryptedApiKey { value }),
            Err(message) => Err(ApiKeyError::Encryption(message)),
        }
    }
}

/// The view of what a store holds under an id, if anything.
pub open spec fn lookup(records: Map<Seq<char>, Seq<char>>, id: Seq<char>) -> Option<Seq<char>> {
    if records.contains_key(id) {
        Some(records[id])
    } else {
        None
    }
}

/// Whether `res` is the answer of a lookup of `id` in a store that holds
/// `records`: what is stored under the id, or nothing. Only a store that
/// may fail can answer with an error, and then with `DatabaseError`.
pub open spec fn is_finding(
    res: Result<Option<String>, ApiKeyError>,
    records: Map<Seq<char>, Seq<char>>,
    may_fail: bool,
    id: Seq<char>,
) -> bool {
    match res {
        Ok(Some(digest)) => lookup(records, id) == Some(digest@),
        Ok(None) => lookup(records, id) is None,
        Err(e) => e is DatabaseError && may_fail,
    }
}

/// Whether `res` is the answer to storing `digest` under `id`, in a store
/// that held `before` and holds `after`.
///
/// Success means that the id was free and now holds the digest, with all
/// else as it was. A failure leaves the records as they were: it is
/// `DuplicateId`, which is given only where the id was taken, or, in a store
/// that may fail, `DatabaseError`. An id that is taken is never
/// overwritten.
pub open spec fn is_saving(
    res: Result<(), ApiKeyError>,
    before: Map<Seq<char>, Seq<char>>,
    after: Map<Seq<char>, Seq<char>>,
    may_fail: bool,
    id: Seq<char>,
    digest: Seq<char>,
) -> bool {
    match res {
        Ok(_) => !before.contains_key(id) && after == before.insert(id, digest),
        Err(e) => after == before && match e {
            ApiKeyError::DuplicateId => before.contains_key(id),
            ApiKeyError::DatabaseError(_) => may_fail,
            _ => false,
        },
    }
}

/// Whether `res` is the answer to removing the record under `id`, in a
/// store that held `before` and holds `after`. Success means that the
/// record is gone, if there was one, with all else as it was. Only a store
/// that may fail can answer with an error: `DatabaseError`, with the records
/// as they were.
pub open spec fn is_deleting(
    res: Result<(), ApiKeyError>,
    before: Map<Seq<char>, Seq<char>>,
    after: Map<Seq<char>, Seq<char>>,
    may_fail: bool,
    id: Seq<char>,
) -> bool {
    match res {
        Ok(_) => after == before.remove(id),
        Err(e) => e is DatabaseError && may_fail && after == before,
    }
}

/// Deleting in a store that cannot fail succeeds, takes out the record under
/// the id and no other, and changes nothing where there is no such record.
pub proof fn lemma_delete_removes_one_record(
    res: Result<(), ApiKeyError>,
    before: Map<Seq<char>, Seq<char>>,
    after: Map<Seq<char>, Seq<char>>,
    id: Seq<char>,
)
    requires
        is_deleting(res, before, after, false, id),
    ensures
        res is Ok,
        lookup(after, id) is None,
        forall|other: Seq<char>| other != id ==> lookup(after, other) == lookup(before, other),
        !before.contains_key(id) ==> after == before,
{
    if !before.contains_key(id) {
        assert(before.remove(id) =~= before);
    }
}

/// Of two attempts in a row to store a digest under one id that was free,
/// in a store that cannot fail, the first succeeds and the second fails
/// with `DuplicateId`; the id keeps the digest of the first, and the second
/// changes nothing.
pub proof fn lemma_second_save_is_duplicate(
    first: Result<(), ApiKeyError>,
    second: Result<(), ApiKeyError>,
    before: Map<Seq<char>, Seq<char>>,
    between: Map<Seq<char>, Seq<char>>,
    after: Map<Seq<char>, Seq<char>>,
    id: Seq<char>,
    first_digest: Seq<char>,
    second_digest: Seq<char>,
)
    requires
        !before.contains_key(id),
        is_saving(first, before, between, false, id, first_digest),
        is_saving(second, between, after, false, id, second_digest),
    ensures
        first is Ok,
        second matches Err(ApiKeyError::DuplicateId),
        after == between,
        lookup(after, id) == Some(first_digest),
{
}

/// The store of digests, keyed by id.
///
/// An implementation keeps at most one digest under an id. An operation
/// may fail for reasons of the store's own; it then reports
/// `DatabaseError` and leaves the records as they were. A store that
/// cannot fail in this way says so by [`ApiKeyRepository::may_fail`].
pub trait ApiKeyRepository {
    /// The records held: the digest text under each id.
    spec fn records(&self) -> Map<Seq<char>, Seq<char>>;

    /// Whether an operation may fail with `DatabaseError`. A store for
    /// which this is `false` answers every call.
    spec fn may_fail(&self) -> bool;

    /// The digest stored under `id`, if there is one.
    fn find_encrypted(&self, id: &str) -> (res: Result<Option<String>, ApiKeyError>)
        ensures
            is_finding(res, self.records(), self.may_fail(), id@),
    ;

    /// Stores the digest under `id`. An id that is taken is never
    /// overwritten: the attempt fails with `DuplicateId`, unless the store
    /// itself fails first.
    fn save(&mut self, id: &str, key: &EncryptedApiKey) -> (res: Result<(), ApiKeyError>)
        ensures
            final(self).may_fail() == old(self).may_fail(),
            is_saving(
                res,
                old(self).records(),
                final(self).records(),
                old(self).may_fail(),
                id@,
                key@,
            ),
    ;

    /// Removes the record under `id`. Removing what is not there is no
    /// failure.
    fn delete(&mut self, id: &str) -> (res: Result<(), ApiKeyError>)
        ensures
            final(self).may_fail() == old(self).may_fail(),
            is_deleting(res, old(self).records(), final(self).records(), old(self).may_fail(), id@),
    ;
}

} // verus!
