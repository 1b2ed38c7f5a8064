use crate::handle::TodoListHandle;
use std::collections::HashMap;
use vstd::prelude::*;

verus! {

broadcast use vstd::std_specs::hash::group_hash_axioms;

/// A live list: its user table and the caller's channels to its actor.
pub struct LiveList<C> {
    pub handle: TodoListHandle,
    pub channels: C,
}

/// The process-wide table of live lists, keyed by list identifier. `C` is
/// what the caller keeps per live list (the actor's intake and snapshot
/// slot); dropping it ends the actor.
pub struct Registry<C> {
    lists: HashMap<u128, LiveList<C>>,
}

impl<C> View for Registry<C> {
    /// For each live list, its user table.
    type V = Map<u128, Map<u128, u64>>;

    closed spec fn view(&self) -> Map<u128, Map<u128, u64>> {
        self.lists@.map_values(|e: LiveList<C>| e.handle@)
    }
}

impl<C> Registry<C> {
    /// For each live list, the channels kept for it.
    pub closed spec fn channels(&self) -> Map<u128, C> {
        self.lists@.map_values(|e: LiveList<C>| e.channels)
    }

    /// An empty registry.
    pub fn new() -> (r: Self)
        ensures
            r@ == Map::<u128, Map<u128, u64>>::empty(),
            r.channels() == Map::<u128, C>::empty(),
    {
        let r = Registry { lists: HashMap::new() };
        assert(r@ =~= Map::<u128, Map<u128, u64>>::empty());
        assert(r.channels() =~= Map::<u128, C>::empty());
        r
    }

    /// Whether list `list` is live.
    pub fn is_live(&self, list: u128) -> (r: bool)
        ensures
            r == self@.contains_key(list),
    {
        self.lists.contains_key(&list)
    }

    /// Makes list `list` live with an empty user table and the given
    /// channels.
    pub fn spawn(&mut self, list: u128, channels: C)
        requires
            !old(self)@.contains_key(list),
        ensures
            final(self)@ == old(self)@.insert(list, Map::empty()),
            final(self).channels() == old(self).channels().insert(list, channels),
    {
        let handle = TodoListHandle::default();
        let ghost c = channels;
        self.lists.insert(list, LiveList { handle, channels });
        assert(self@ =~= old(self)@.insert(list, Map::empty()));
        assert(self.channels() =~= old(self).channels().insert(list, c));
    }

    /// Joins session `session` of `user` to live list `list`. Returns `None`
    /// where the list is not live (the registry is then unchanged), else the
    /// session whose presence was superseded, if any.
    pub fn join_todo_list(&mut self, list: u128, user: u128, session: u64) -> (r: Option<Option<u64>>)
        ensures
            !old(self)@.contains_key(list) ==> r is None && final(self)@ == old(self)@,
            old(self)@.contains_key(list) ==> {
                &&& final(self)@ == old(self)@.insert(list, old(self)@[list].insert(user, session))
                &&& r == Some(
                    if old(self)@[list].contains_key(user) {
                        Some(old(self)@[list][user])
                    } else {
                        None
                    },
                )
            },
            final(self).channels() == old(self).channels(),
    {
        match self.lists.remove(&list) {
            None => None,
            Some(entry) => {
                let mut entry = entry;
                let evicted = entry.handle.join(user, session);
                self.lists.insert(list, entry);
                assert(self@ =~= old(self)@.insert(list, old(self)@[list].insert(user, session)));
                assert(self.channels() =~= old(self).channels());
                Some(evicted)
            },
        }
    }

    /// Removes `user` from live list `list`. Where that leaves the list
    /// without users it stops being live, in this same call, and its
    /// channels are handed back.
    pub fn leave_todo_list(&mut self, list: u128, user: u128) -> (r: Option<C>)
        ensures
            !old(self)@.contains_key(list) ==> r is None && final(self)@ == old(self)@
                && final(self).channels() == old(self).channels(),
            old(self)@.contains_key(list) && old(self)@[list].remove(user) == Map::<u128, u64>::empty() ==> {
                &&& final(self)@ == old(self)@.remove(list)
                &&& final(self).channels() == old(self).channels().remove(list)
                &&& r == Some(old(self).channels()[list])
            },
            old(self)@.contains_key(list) && old(self)@[list].remove(user) != Map::<u128, u64>::empty() ==> {
                &&& final(self)@ == old(self)@.insert(list, old(self)@[list].remove(user))
                &&& final(self).channels() == old(self).channels()
                &&& r is None
            },
    {
        match self.lists.remove(&list) {
            None => None,
            Some(entry) => {
                let mut entry = entry;
                entry.handle.disconnect_user(user);
                if entry.handle.is_empty() {
                    assert(self@ =~= old(self)@.remove(list));
                    assert(self.channels() =~= old(self).channels().remove(list));
                    Some(entry.channels)
                } else {
                    self.lists.insert(list, entry);
                    assert(self@ =~= old(self)@.insert(list, old(self)@[list].remove(user)));
                    assert(self.channels() =~= old(self).channels());
                    None
                }
            },
        }
    }

    /// The channels of live list `list`.
    pub fn channels_of(&self, list: u128) -> (r: Option<&C>)
        ensures
            match r {
                Some(c) => self@.contains_key(list) && *c == self.channels()[list],
                None => !self@.contains_key(list),
            },
    {
        match self.lists.get(&list) {
            Some(e) => Some(&e.channels),
            None => None,
        }
    }
}

} // verus!
