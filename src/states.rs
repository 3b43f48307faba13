//! The anti-replay state values of logins in progress: issued with each
//! authorization request, redeemed once by the provider's callback.
use vstd::prelude::*;
use dashmap::DashMap;

verus! {

/// The state values held by a map of pending logins.
pub uninterp spec fn pending_states(m: DashMap<String, ()>) -> Set<Seq<char>>;

/// Relies on DashMap::new: a new map holds no entry.
#[verifier::external_body]
fn state_map_new() -> (r: DashMap<String, ()>)
    ensures
        pending_states(r) == Set::<Seq<char>>::empty(),
{
    DashMap::new()
}

/// Relies on DashMap::insert: afterwards the key is held, and so is every
/// key held before.
#[verifier::external_body]
fn state_map_insert(m: &mut DashMap<String, ()>, key: String)
    ensures
        pending_states(*final(m)) == pending_states(*old(m)).insert(key@),
{
    m.insert(key, ());
}

/// Relies on DashMap::remove: afterwards the key is not held, every other key
/// is as it was, and the result says whether the key was held.
#[verifier::external_body]
fn state_map_remove(m: &mut DashMap<String, ()>, key: &str) -> (r: bool)
    ensures
        r == pending_states(*old(m)).contains(key@),
        pending_states(*final(m)) == pending_states(*old(m)).remove(key@),
{
    m.remove(key).is_some()
}

/// The state values issued to logins that have not come back yet.
pub struct PendingStates {
    map: DashMap<String, ()>,
}

impl PendingStates {
    /// The state values waiting for their callback.
    pub closed spec fn states(&self) -> Set<Seq<char>> {
        pending_states(self.map)
    }

    /// No login in progress.
    pub fn new() -> (r: PendingStates)
        ensures
            r.states() == Set::<Seq<char>>::empty(),
    {
        PendingStates { map: state_map_new() }
    }

    /// Records `state` as issued.
    pub fn issue(&mut self, state: String)
        ensures
            final(self).states() == old(self).states().insert(state@),
    {
        state_map_insert(&mut self.map, state);
    }

    /// Redeems `state`: says whether it was issued and not yet redeemed, and
    /// forgets it, so that it is accepted once only.
    pub fn redeem(&mut self, state: &str) -> (r: bool)
        ensures
            r == old(self).states().contains(state@),
            final(self).states() == old(self).states().remove(state@),
    {
        state_map_remove(&mut self.map, state)
    }
}

} // verus!
