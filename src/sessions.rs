//! The session table: session identifier to session record, held in a
//! concurrent map.
use vstd::prelude::*;
use dashmap::DashMap;
use crate::principal::{User, UserInfo};

verus! {

/// What a successful login leaves behind: the principal, the provider's
/// tokens and the user-info it answered with.
#[derive(Clone, Debug)]
pub struct Session {
    pub user: User,
    pub access_token: String,
    pub id_token: String,
    pub userinfo: UserInfo,
}

#[verifier::external_type_specification]
#[verifier::external_body]
#[verifier::reject_recursive_types(K)]
#[verifier::reject_recursive_types(V)]
#[verifier::reject_recursive_types(S)]
pub struct ExDashMap<K, V, S>(DashMap<K, V, S>);

/// The entries of a session map, keyed by the text of the session identifier.
pub uninterp spec fn session_entries(m: DashMap<String, Session>) -> Map<Seq<char>, Session>;

/// Relies on DashMap::new: a new map holds no entry.
#[verifier::external_body]
fn map_new() -> (r: DashMap<String, Session>)
    ensures
        session_entries(r).dom() == Set::<Seq<char>>::empty(),
{
    DashMap::new()
}

/// Relies on DashMap::insert: afterwards the key maps to the value and every
/// other entry is as it was. It does not unwind: the shard locks do not
/// poison, and hashing a `String` does not panic.
#[verifier::external_body]
fn map_insert(m: &mut DashMap<String, Session>, key: String, value: Session)
    ensures
        session_entries(*final(m)) == session_entries(*old(m)).insert(key@, value),
    no_unwind
{
    m.insert(key, value);
}

/// Relies on DashMap::remove: afterwards the key has no entry and every other
/// entry is as it was. It does not unwind, for the same reasons as `insert`.
#[verifier::external_body]
fn map_remove(m: &mut DashMap<String, Session>, key: &str)
    ensures
        session_entries(*final(m)) == session_entries(*old(m)).remove(key@),
    no_unwind
{
    m.remove(key);
}

/// Relies on DashMap::get: the entry of the key, if any, cloned out of the map.
#[verifier::external_body]
fn map_get(m: &DashMap<String, Session>, key: &str) -> (r: Option<Session>)
    ensures
        session_entries(*m).contains_key(key@) ==> r == Some(session_entries(*m)[key@]),
        !session_entries(*m).contains_key(key@) ==> r is None,
{
    m.get(key).map(|entry| entry.value().clone())
}

/// Relies on DashMap::contains_key: whether the key has an entry.
#[verifier::external_body]
fn map_contains(m: &DashMap<String, Session>, key: &str) -> (r: bool)
    ensures
        r == session_entries(*m).contains_key(key@),
{
    m.contains_key(key)
}

/// Relies on DashMap::is_empty: whether the map holds no entry at all.
#[verifier::external_body]
fn map_is_empty(m: &DashMap<String, Session>) -> (r: bool)
    ensures
        r == (session_entries(*m).dom() == Set::<Seq<char>>::empty()),
{
    m.is_empty()
}

/// One mutation of a session table, as the table's model sees it.
pub enum TableOp {
    Put(Seq<char>, Session),
    Remove(Seq<char>),
}

/// The identifier that an operation is about.
pub open spec fn op_key(op: TableOp) -> Seq<char> {
    match op {
        TableOp::Put(k, _) => k,
        TableOp::Remove(k) => k,
    }
}

/// The entries after one operation: a put fills only a free identifier, a
/// remove empties its identifier.
pub open spec fn apply_op(m: Map<Seq<char>, Session>, op: TableOp) -> Map<Seq<char>, Session> {
    match op {
        TableOp::Put(k, s) => if m.contains_key(k) {
            m
        } else {
            m.insert(k, s)
        },
        TableOp::Remove(k) => m.remove(k),
    }
}

/// The entries after the operations, in order.
pub open spec fn apply_ops(m: Map<Seq<char>, Session>, ops: Seq<TableOp>) -> Map<
    Seq<char>,
    Session,
>
    decreases ops.len(),
{
    if ops.len() == 0 {
        m
    } else {
        apply_ops(apply_op(m, ops[0]), ops.drop_first())
    }
}

/// Operations on other identifiers leave the entry of `id` as it was.
pub proof fn lemma_other_keys_keep_entry(
    m: Map<Seq<char>, Session>,
    id: Seq<char>,
    ops: Seq<TableOp>,
)
    requires
        forall|i: int| 0 <= i < ops.len() ==> op_key(#[trigger] ops[i]) != id,
    ensures
        apply_ops(m, ops).contains_key(id) == m.contains_key(id),
        m.contains_key(id) ==> apply_ops(m, ops)[id] == m[id],
    decreases ops.len(),
{
    if ops.len() > 0 {
        assert(op_key(ops[0]) != id);
        let rest = ops.drop_first();
        assert forall|i: int| 0 <= i < rest.len() implies op_key(#[trigger] rest[i]) != id by {
            assert(rest[i] == ops[i + 1]);
        }
        lemma_other_keys_keep_entry(apply_op(m, ops[0]), id, rest);
    }
}

/// A session put under a fresh identifier is what `get` returns for it, also
/// after any puts and removes of other identifiers; once the identifier is
/// removed, `get` returns nothing for it.
pub proof fn lemma_put_get_remove(
    m: Map<Seq<char>, Session>,
    id: Seq<char>,
    session: Session,
    others: Seq<TableOp>,
)
    requires
        !m.contains_key(id),
        forall|i: int| 0 <= i < others.len() ==> op_key(#[trigger] others[i]) != id,
    ensures
        apply_ops(apply_op(m, TableOp::Put(id, session)), others).contains_key(id),
        apply_ops(apply_op(m, TableOp::Put(id, session)), others)[id] == session,
        !apply_op(
            apply_ops(apply_op(m, TableOp::Put(id, session)), others),
            TableOp::Remove(id),
        ).contains_key(id),
{
    lemma_other_keys_keep_entry(apply_op(m, TableOp::Put(id, session)), id, others);
}

/// Whatever order puts and removes take effect in, a session stored under an
/// identifier is a whole session that was put there: the one stored at the
/// start, or the one of some put of that identifier.
pub proof fn lemma_entry_is_whole_put(m: Map<Seq<char>, Session>, ops: Seq<TableOp>, id: Seq<char>)
    ensures
        apply_ops(m, ops).contains_key(id) ==> {
            ||| (m.contains_key(id) && apply_ops(m, ops)[id] == m[id])
            ||| exists|i: int|
                0 <= i < ops.len() && #[trigger] ops[i] == TableOp::Put(id, apply_ops(m, ops)[id])
        },
    decreases ops.len(),
{
    if ops.len() > 0 && apply_ops(m, ops).contains_key(id) {
        let m1 = apply_op(m, ops[0]);
        let rest = ops.drop_first();
        lemma_entry_is_whole_put(m1, rest, id);
        let v = apply_ops(m1, rest)[id];
        if m1.contains_key(id) && v == m1[id] {
            match ops[0] {
                TableOp::Put(k, s) => {
                    if k == id && !m.contains_key(id) {
                        assert(ops[0] == TableOp::Put(id, v));
                    }
                },
                TableOp::Remove(k) => {},
            }
        } else {
            let i = choose|i: int| 0 <= i < rest.len() && #[trigger] rest[i] == TableOp::Put(id, v);
            assert(ops[i + 1] == rest[i]);
        }
    }
}

/// The session table. Its operations are the map's own, each of them atomic;
/// a live identifier is never given a second session.
pub struct SessionTable {
    map: DashMap<String, Session>,
}

impl SessionTable {
    /// The table holds finitely many sessions.
    #[verifier::type_invariant]
    spec fn holds_finitely_many(self) -> bool {
        session_entries(self.map).dom().finite()
    }

    /// The sessions in the table, by identifier.
    pub closed spec fn entries(&self) -> Map<Seq<char>, Session> {
        session_entries(self.map)
    }

    /// A table without sessions.
    pub fn new() -> (r: SessionTable)
        ensures
            r.entries().dom() == Set::<Seq<char>>::empty(),
            r.entries().dom().finite(),
    {
        SessionTable { map: map_new() }
    }

    /// Stores `session` under `id` when `id` names no session yet, and says
    /// whether it did; a live identifier keeps its session.
    pub fn put(&mut self, id: String, session: Session) -> (inserted: bool)
        ensures
            inserted == !old(self).entries().contains_key(id@),
            inserted ==> final(self).entries() == old(self).entries().insert(id@, session),
            !inserted ==> final(self).entries() == old(self).entries(),
            final(self).entries() == apply_op(old(self).entries(), TableOp::Put(id@, session)),
            final(self).entries().dom().finite(),
    {
        proof {
            use_type_invariant(&*self);
        }
        if map_contains(&self.map, id.as_str()) {
            false
        } else {
            map_insert(&mut self.map, id, session);
            true
        }
    }

    /// The session stored under `id`, if any.
    pub fn get(&self, id: &str) -> (r: Option<Session>)
        ensures
            r == (if self.entries().contains_key(id@) {
                Some(self.entries()[id@])
            } else {
                None::<Session>
            }),
            self.entries().dom().finite(),
    {
        proof {
            use_type_invariant(self);
        }
        map_get(&self.map, id)
    }

    /// Removes the session stored under `id`; removing an absent identifier
    /// changes nothing.
    pub fn remove(&mut self, id: &str)
        ensures
            final(self).entries() == old(self).entries().remove(id@),
            final(self).entries() == apply_op(old(self).entries(), TableOp::Remove(id@)),
            final(self).entries().dom().finite(),
    {
        proof {
            use_type_invariant(&*self);
        }
        map_remove(&mut self.map, id);
    }

    /// Whether a session is stored under `id`.
    pub fn contains(&self, id: &str) -> (r: bool)
        ensures
            r == self.entries().contains_key(id@),
            self.entries().dom().finite(),
    {
        proof {
            use_type_invariant(self);
        }
        map_contains(&self.map, id)
    }

    /// Whether the table holds no session at all.
    pub fn is_empty(&self) -> (r: bool)
        ensures
            r == (self.entries().dom() == Set::<Seq<char>>::empty()),
            self.entries().dom().finite(),
    {
        proof {
            use_type_invariant(self);
        }
        map_is_empty(&self.map)
    }
}

} // verus!
