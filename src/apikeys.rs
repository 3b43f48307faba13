//! API keys: the credential of programmatic clients, their store records and
//! their creation by a signed-in principal.
use vstd::prelude::*;
use rand::rngs::StdRng;
use ulid::{DecodeError, Ulid};
use crate::secrets::{is_secret_text, rand_alphanumeric_string, SECRET_LEN};
use crate::sessions::SessionTable;
use crate::credentials::user_from_session;

verus! {

#[verifier::external_type_specification]
#[verifier::external_body]
pub struct ExDecodeError(DecodeError);

/// Length of the text of a key identifier.
pub const ULID_TEXT_LEN: usize = 26;

/// `c` is a digit of Crockford's base 32, in either case: the digits and the
/// letters but I, L, O and U.
pub open spec fn is_crockford_char(c: char) -> bool {
    ||| ('0' <= c && c <= '9')
    ||| ('A' <= c && c <= 'Z' && c != 'I' && c != 'L' && c != 'O' && c != 'U')
    ||| ('a' <= c && c <= 'z' && c != 'i' && c != 'l' && c != 'o' && c != 'u')
}

/// `s` is the text of a key identifier: 26 Crockford base-32 digits.
pub open spec fn is_ulid_text(s: Seq<char>) -> bool {
    &&& s.len() == ULID_TEXT_LEN
    &&& forall|i: int| 0 <= i < s.len() ==> is_crockford_char(#[trigger] s[i])
}

/// The identifier that a text of 26 Crockford digits decodes to.
pub uninterp spec fn ulid_value(s: Seq<char>) -> u128;

/// The canonical text of an identifier.
pub uninterp spec fn ulid_text_of(id: u128) -> Seq<char>;

/// Relies on ulid::Ulid::from_string: 26 Crockford base-32 digits, in either
/// case, decode to an identifier; any other text is refused.
#[verifier::external_body]
fn ulid_from_text(s: &str) -> (r: Result<u128, DecodeError>)
    ensures
        r is Ok <==> is_ulid_text(s@),
        r is Ok ==> r->Ok_0 == ulid_value(s@),
{
    Ulid::from_string(s).map(|u| u.0)
}

/// Relies on ulid::Ulid::to_string: 26 upper-case Crockford digits, five bits
/// each, that decode back to the same identifier.
#[verifier::external_body]
fn ulid_to_text(id: u128) -> (r: String)
    ensures
        r@ == ulid_text_of(id),
        is_ulid_text(r@),
        ulid_value(r@) == id,
{
    Ulid(id).to_string()
}

/// Relies on ulid::Ulid::new: a fresh identifier from the clock and random
/// bits; nothing is known of its value.
#[verifier::external_body]
fn ulid_fresh() -> (r: u128) {
    Ulid::new().0
}

/// A point in time with the offset from UTC that it was given in.
#[derive(Clone, Copy, Debug, PartialEq, Eq, Structural)]
pub struct Timestamp {
    pub seconds: i64,
    pub nanos: u32,
    pub offset_seconds: i32,
}

/// An API key as the credential store holds it.
#[derive(Clone, Debug)]
pub struct ApiKeyRecord {
    pub id: String,
    pub created_by: String,
    pub key: String,
    pub date_created: Timestamp,
    pub deleted_at: Option<Timestamp>,
}

/// An API key: its identifier, the subject id of its owner, the secret that a
/// client presents, when it was created and, once revoked, when.
#[derive(Clone, Debug)]
pub struct APIKey {
    pub id: u128,
    pub created_by: String,
    pub key: String,
    pub date_created: Timestamp,
    pub deleted_at: Option<Timestamp>,
}

/// A store record whose identifier is not the text of a key identifier.
#[derive(Clone, Copy, Debug, PartialEq, Eq, Structural)]
pub struct MalformedKeyId;

impl APIKey {
    /// A live key of `user` with secret `key`, created at `date`, under a
    /// fresh identifier.
    pub fn new(user: String, key: String, date: Timestamp) -> (r: APIKey)
        ensures
            r.created_by == user,
            r.key == key,
            r.date_created == date,
            r.deleted_at is None,
    {
        APIKey { id: ulid_fresh(), created_by: user, key, date_created: date, deleted_at: None }
    }

    /// The store record of the key.
    pub fn into_der(self) -> (r: ApiKeyRecord)
        ensures
            r.id@ == ulid_text_of(self.id),
            is_ulid_text(r.id@),
            ulid_value(r.id@) == self.id,
            r.created_by == self.created_by,
            r.key == self.key,
            r.date_created == self.date_created,
            r.deleted_at == self.deleted_at,
    {
        ApiKeyRecord {
            id: ulid_to_text(self.id),
            created_by: self.created_by,
            key: self.key,
            date_created: self.date_created,
            deleted_at: self.deleted_at,
        }
    }

    /// The key as a listing shows it: the same key without its owner.
    pub fn without_owner(self) -> (r: APIKey)
        ensures
            r.created_by@ == Seq::<char>::empty(),
            r.id == self.id,
            r.key == self.key,
            r.date_created == self.date_created,
            r.deleted_at == self.deleted_at,
    {
        APIKey { created_by: String::new(), ..self }
    }

    /// The key that a store record holds; refused when the record's identifier
    /// is not the text of a key identifier.
    pub fn from_inactive_der(der: ApiKeyRecord) -> (r: Result<APIKey, MalformedKeyId>)
        ensures
            r is Ok <==> is_ulid_text(der.id@),
            r is Ok ==> r->Ok_0.id == ulid_value(der.id@),
            r is Ok ==> r->Ok_0.created_by == der.created_by,
            r is Ok ==> r->Ok_0.key == der.key,
            r is Ok ==> r->Ok_0.date_created == der.date_created,
            r is Ok ==> r->Ok_0.deleted_at == der.deleted_at,
    {
        match ulid_from_text(der.id.as_str()) {
            Ok(id) => Ok(
                APIKey {
                    id,
                    created_by: der.created_by,
                    key: der.key,
                    date_created: der.date_created,
                    deleted_at: der.deleted_at,
                },
            ),
            Err(_) => Err(MalformedKeyId),
        }
    }
}

/// Mints the key that a signed-in caller asks for: owned by the principal of
/// the session that `cookie` names, with a fresh unguessable secret, created
/// at `date`. Without a live session, or without a date, nothing is minted
/// and the generator is not drawn from.
pub fn create(
    sessions: &SessionTable,
    rng: &mut StdRng,
    cookie: Option<String>,
    date: Option<Timestamp>,
) -> (r: Option<APIKey>)
    ensures
        r is Some <==> (cookie is Some && sessions.entries().contains_key(cookie->0@)
            && date is Some),
        r is Some ==> r->0.created_by == sessions.entries()[cookie->0@].user.id,
        r is Some ==> is_secret_text(r->0.key@, SECRET_LEN as nat),
        r is Some ==> r->0.date_created == date->0,
        r is Some ==> r->0.deleted_at is None,
        r is None ==> *final(rng) == *old(rng),
{
    let user = match cookie {
        Some(c) => match user_from_session(sessions, c) {
            Some(u) => u,
            None => return None,
        },
        None => return None,
    };
    let date = match date {
        Some(d) => d,
        None => return None,
    };
    let key = rand_alphanumeric_string(rng, SECRET_LEN);
    Some(APIKey::new(user.id, key, date))
}

} // verus!
