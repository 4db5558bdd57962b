//! The session store: one record per player, kept in the hash map that
//! `gstd::collections` offers (the `HashMap` of the `hashbrown` crate).
//!
//! The map itself is not verified. This module says what its methods do to
//! the stored records, as far as the orchestrator relies on it; everything
//! else in the library is proved against these statements.

use vstd::prelude::*;
use gstd::collections::HashMap;
use crate::ids::ActorId;
use crate::session::{SessionInfo, SessionInfoView};

verus! {

/// The records of all players, keyed by the player's identity. A player
/// has at most one record.
#[verifier::external_body]
#[derive(Debug)]
pub struct SessionStore {
    map: HashMap<ActorId, SessionInfo>,
}

/// The records a store holds: which players have one, and its value.
pub uninterp spec fn stored_sessions(store: SessionStore) -> Map<ActorId, SessionInfoView>;

impl View for SessionStore {
    type V = Map<ActorId, SessionInfoView>;

    open spec fn view(&self) -> Map<ActorId, SessionInfoView> {
        stored_sessions(*self)
    }
}

impl SessionStore {
    /// Calls `HashMap::new`, which makes a map without entries.
    #[verifier::external_body]
    pub(crate) fn new() -> (store: Self)
        ensures
            stored_sessions(store) == empty_sessions(),
    {
        SessionStore { map: HashMap::new() }
    }

    /// Calls `HashMap::get`: the record stored under `user`, if there is
    /// one. The map is left as it was.
    #[verifier::external_body]
    pub(crate) fn get(&self, user: &ActorId) -> (found: Option<&SessionInfo>)
        ensures
            found is Some == stored_sessions(*self).contains_key(*user),
            found is Some ==> found->0@ == stored_sessions(*self)[*user],
    {
        self.map.get(user)
    }

    /// Calls `HashMap::get_mut`: a reference into the map to the record
    /// stored under `user`, if there is one. No entry is added or removed,
    /// and what the caller writes through the reference is what the map
    /// then holds under `user`.
    #[verifier::external_body]
    pub(crate) fn get_mut(&mut self, user: &ActorId) -> (found: Option<&mut SessionInfo>)
        ensures
            found is Some == stored_sessions(*old(self)).contains_key(*user),
            found is Some ==> found->0@ == stored_sessions(*old(self))[*user],
            found is Some ==> stored_sessions(*final(self)) == stored_sessions(*old(self)).insert(
                *user,
                final(found->0)@,
            ),
            found is None ==> stored_sessions(*final(self)) == stored_sessions(*old(self)),
    {
        self.map.get_mut(user)
    }

    /// Calls `HashMap::entry` and then `Entry::or_default`: a reference
    /// into the map to the record stored under `user`, after storing
    /// `SessionInfo::default()` there if `user` had none. No other entry
    /// changes, and what the caller writes through the reference is what
    /// the map then holds under `user`.
    #[verifier::external_body]
    pub(crate) fn get_or_default(&mut self, user: ActorId) -> (slot: &mut SessionInfo)
        ensures
            slot@ == if stored_sessions(*old(self)).contains_key(user) {
                stored_sessions(*old(self))[user]
            } else {
                SessionInfoView::initial()
            },
            stored_sessions(*final(self)) == stored_sessions(*old(self)).insert(user, final(slot)@),
    {
        self.map.entry(user).or_default()
    }

    /// Calls `HashMap::clone`, which makes a map of its own with a copy of
    /// each entry: the same players, each with a record of the same value.
    #[verifier::external_body]
    pub(crate) fn duplicate(&self) -> (copy: Self)
        ensures
            stored_sessions(copy) == stored_sessions(*self),
    {
        SessionStore { map: self.map.clone() }
    }

    /// Calls `HashMap::iter` and copies each entry out. Every stored record
    /// is listed once, under its player, and nothing else is listed; the
    /// order is the map's own and is left open.
    #[verifier::external_body]
    pub(crate) fn entries(&self) -> (list: Vec<(ActorId, SessionInfo)>)
        ensures
            lists_sessions(list@, stored_sessions(*self)),
    {
        self.map.iter().map(|(user, session)| (*user, session.clone())).collect()
    }
}

/// The store without records.
pub open spec fn empty_sessions() -> Map<ActorId, SessionInfoView> {
    Map::empty()
}

/// `list` holds the records of `sessions`, each once and in any order.
pub open spec fn lists_sessions(
    list: Seq<(ActorId, SessionInfo)>,
    sessions: Map<ActorId, SessionInfoView>,
) -> bool {
    &&& forall|i: int|
        0 <= i < list.len() ==> sessions.contains_key(#[trigger] list[i].0) && sessions[list[i].0]
            == list[i].1@
    &&& forall|i: int, j: int|
        0 <= i < j < list.len() ==> (#[trigger] list[i]).0 != (#[trigger] list[j]).0
    &&& forall|user: ActorId| #[trigger]
        sessions.contains_key(user) ==> exists|i: int| 0 <= i < list.len() && list[i].0 == user
}

} // verus!
