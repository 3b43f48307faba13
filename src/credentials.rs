//! The credential verifier: resolves the caller of a protected operation from
//! a session identifier or from an API key, never inventing a principal.
use vstd::prelude::*;
use crate::apikeys::{is_ulid_text, ulid_value, APIKey, ApiKeyRecord};
use crate::error::{resp_err, ApiError, UNAUTHORIZED};
use crate::principal::User;
use crate::sessions::{
    apply_op, apply_ops, lemma_entry_is_whole_put, lemma_put_get_remove, op_key, Session,
    SessionTable, TableOp,
};

verus! {

/// The principal of the session stored under `token`, if any.
pub open spec fn session_user(m: Map<Seq<char>, Session>, token: Seq<char>) -> Option<User> {
    if m.contains_key(token) {
        Some(m[token].user)
    } else {
        None
    }
}

/// Session path: the principal of the live session that `token` names.
pub fn user_from_session(sessions: &SessionTable, token: String) -> (r: Option<User>)
    ensures
        r == session_user(sessions.entries(), token@),
{
    match sessions.get(token.as_str()) {
        Some(s) => Some(s.user),
        None => None,
    }
}

/// The credential store could not be searched.
#[derive(Clone, Copy, Debug, PartialEq, Eq, Structural)]
pub struct StoreFault;

/// The store's answer holds a record whose secret is `token`.
pub open spec fn store_holds_key(
    lookup: Result<Option<ApiKeyRecord>, StoreFault>,
    token: Seq<char>,
) -> bool {
    match lookup {
        Ok(Some(rec)) => rec.key@ == token,
        _ => false,
    }
}

/// The API-key path accepts `token` with the store's answer `lookup`: a
/// record with exactly that secret, not revoked, with a well-formed identifier.
pub open spec fn api_key_accepts(
    token: Seq<char>,
    lookup: Result<Option<ApiKeyRecord>, StoreFault>,
) -> bool {
    match lookup {
        Ok(Some(rec)) => rec.key@ == token && rec.deleted_at is None && is_ulid_text(rec.id@),
        _ => false,
    }
}

/// API-key path: the key that `key` names, given what the credential store
/// answered when asked for it. A fault of the store, a missing record, a record
/// with another secret, a revoked key and a malformed record all give nothing.
pub fn valid_api_key(key: String, lookup: Result<Option<ApiKeyRecord>, StoreFault>) -> (r: Option<
    APIKey,
>)
    ensures
        r is Some <==> api_key_accepts(key@, lookup),
        r is Some ==> r->0.id == ulid_value(lookup->Ok_0->0.id@),
        r is Some ==> r->0.created_by == lookup->Ok_0->0.created_by,
        r is Some ==> r->0.key@ == key@,
        r is Some ==> r->0.date_created == lookup->Ok_0->0.date_created,
        r is Some ==> r->0.deleted_at is None,
{
    match lookup {
        Ok(Some(rec)) => {
            if rec.key != key || rec.deleted_at.is_some() {
                return None;
            }
            match APIKey::from_inactive_der(rec) {
                Ok(apikey) => Some(apikey),
                Err(_) => None,
            }
        },
        _ => None,
    }
}

/// Gate of an operation for signed-in users: the principal of the session
/// that `token` names, or 401 `user is not signed in`.
pub fn require_session(sessions: &SessionTable, token: String) -> (r: Result<User, (u16, ApiError)>)
    ensures
        r is Ok <==> sessions.entries().contains_key(token@),
        r is Ok ==> Some(r->Ok_0) == session_user(sessions.entries(), token@),
        r is Err ==> r->Err_0.0 == UNAUTHORIZED,
        r is Err ==> r->Err_0.1.err@ == "user is not signed in"@,
{
    match user_from_session(sessions, token) {
        Some(u) => Ok(u),
        None => Err(resp_err(UNAUTHORIZED, "user is not signed in")),
    }
}

/// Gate of an operation for API clients: the subject id of the owner of the
/// key that `token` names, or 401 `api key is not valid`.
pub fn require_api_key(token: String, lookup: Result<Option<ApiKeyRecord>, StoreFault>) -> (r:
    Result<String, (u16, ApiError)>)
    ensures
        r is Ok <==> api_key_accepts(token@, lookup),
        r is Ok ==> r->Ok_0 == lookup->Ok_0->0.created_by,
        r is Err ==> r->Err_0.0 == UNAUTHORIZED,
        r is Err ==> r->Err_0.1.err@ == "api key is not valid"@,
{
    match valid_api_key(token, lookup) {
        Some(apikey) => Ok(apikey.created_by),
        None => Err(resp_err(UNAUTHORIZED, "api key is not valid")),
    }
}

/// Neither credential path authenticates a token that names no live session
/// and that the credential store holds no key for.
pub proof fn lemma_unknown_token_rejected(
    m: Map<Seq<char>, Session>,
    token: Seq<char>,
    lookup: Result<Option<ApiKeyRecord>, StoreFault>,
)
    requires
        !m.contains_key(token),
        !store_holds_key(lookup, token),
    ensures
        session_user(m, token) is None,
        !api_key_accepts(token, lookup),
{
}

/// A principal signed in under `id` is what the session path resolves `id`
/// to while any puts and removes of other identifiers take effect, and the
/// session path resolves `id` to nothing once it is removed.
pub proof fn lemma_session_principal_survives_other_keys(
    m: Map<Seq<char>, Session>,
    id: Seq<char>,
    session: Session,
    others: Seq<TableOp>,
)
    requires
        !m.contains_key(id),
        forall|i: int| 0 <= i < others.len() ==> op_key(#[trigger] others[i]) != id,
    ensures
        session_user(apply_ops(apply_op(m, TableOp::Put(id, session)), others), id) == Some(
            session.user,
        ),
        session_user(
            apply_op(
                apply_ops(apply_op(m, TableOp::Put(id, session)), others),
                TableOp::Remove(id),
            ),
            id,
        ) is None,
{
    lemma_put_get_remove(m, id, session, others);
}

/// Whatever order puts and removes of an identifier take effect in, the
/// session path resolves it to nothing, or to the whole principal of one
/// session stored under it: the one there at the start, or the one of a put.
pub proof fn lemma_session_principal_is_whole(
    m: Map<Seq<char>, Session>,
    ops: Seq<TableOp>,
    id: Seq<char>,
)
    ensures
        session_user(apply_ops(m, ops), id) is None || {
            let s = apply_ops(m, ops)[id];
            &&& session_user(apply_ops(m, ops), id) == Some(s.user)
            &&& {
                ||| (m.contains_key(id) && s == m[id])
                ||| exists|i: int| 0 <= i < ops.len() && #[trigger] ops[i] == TableOp::Put(id, s)
            }
        },
{
    lemma_entry_is_whole_put(m, ops, id);
}

} // verus!
