use crate::command::{Applicable, Command};
use crate::list::{has_user, lemma_without_user_unique, user_ids, ListView};
use crate::user::{User, UserView};
use std::collections::HashMap;
use vstd::prelude::*;

verus! {

broadcast use vstd::std_specs::hash::group_hash_axioms;

/// The user table of one live list: for each connected user, the session
/// that presently owns the user's presence. A session is named by a token
/// under which the caller keeps the session's eviction signal.
pub struct TodoListHandle {
    connected_users: HashMap<u128, u64>,
}

impl View for TodoListHandle {
    type V = Map<u128, u64>;

    closed spec fn view(&self) -> Map<u128, u64> {
        self.connected_users@
    }
}

impl Default for TodoListHandle {
    fn default() -> (h: Self)
        ensures
            h@ == Map::<u128, u64>::empty(),
            h@.dom().finite(),
    {
        TodoListHandle { connected_users: HashMap::new() }
    }
}

impl TodoListHandle {
    /// Records that session `session` now owns the presence of `user`. If
    /// another session owned it, that session is returned: its eviction
    /// signal is to be fired, once.
    pub fn join(&mut self, user: u128, session: u64) -> (evicted: Option<u64>)
        ensures
            final(self)@ == old(self)@.insert(user, session),
            final(self)@.dom().finite(),
            evicted == if old(self)@.contains_key(user) {
                Some(old(self)@[user])
            } else {
                None
            },
    {
        self.connected_users.insert(user, session)
    }

    /// Removes the entry of `user`.
    pub fn disconnect_user(&mut self, user: u128)
        ensures
            final(self)@ == old(self)@.remove(user),
            final(self)@.dom().finite(),
    {
        self.connected_users.remove(&user);
    }

    /// Whether no user entry remains.
    pub fn is_empty(&self) -> (r: bool)
        ensures
            r == (self@ == Map::<u128, u64>::empty()),
            self@.dom().finite(),
    {
        let r = self.connected_users.len() == 0;
        proof {
            if r {
                self@.dom().lemma_len0_is_empty();
                assert(self@ =~= Map::<u128, u64>::empty());
            } else if self@ == Map::<u128, u64>::empty() {
                assert(self@.dom() =~= Set::<u128>::empty());
            }
        }
        r
    }

    /// The session that owns the presence of `user`, if any.
    pub fn session_of(&self, user: u128) -> (r: Option<u64>)
        ensures
            r == if self@.contains_key(user) {
                Some(self@[user])
            } else {
                None
            },
    {
        match self.connected_users.get(&user) {
            Some(s) => Some(*s),
            None => None,
        }
    }
}


/// Where the users connected to a list are those of its user table, they
/// stay so when a user joins (first time or again, from a new session) and
/// the list applies the matching `UserJoin`, and when a user leaves and the
/// list applies the matching `UserLeave`. A superseded session sends no
/// `UserLeave`, so a re-join keeps the user in both.
pub proof fn lemma_presence_agrees(
    l: ListView,
    table: Map<u128, u64>,
    user: User,
    session: u64,
    issuer: UserView,
    fresh: u128,
)
    requires
        l.wf(),
        user_ids(l.connected_users) == table.dom(),
    ensures
        user_ids(Command::UserJoin(user).effect(l, issuer, fresh).connected_users) == table.insert(
            user@.id,
            session,
        ).dom(),
        user_ids(Command::UserLeave(user).effect(l, issuer, fresh).connected_users) == table.remove(
            user@.id,
        ).dom(),
{
    let users = l.connected_users;
    let id = user@.id;
    assert(user_ids(users).contains(id) == has_user(users, id));
    let joined = Command::UserJoin(user).effect(l, issuer, fresh).connected_users;
    assert forall|k: u128| has_user(joined, k) <==> (has_user(users, k) || k == id) by {
        if !has_user(users, id) {
            assert(joined == users.push(user@));
            if has_user(joined, k) {
                let i = choose|i: int| 0 <= i < joined.len() && joined[i].id == k;
                if i < users.len() {
                    assert(joined[i] == users[i]);
                }
            }
            if has_user(users, k) {
                let i = choose|i: int| 0 <= i < users.len() && users[i].id == k;
                assert(joined[i] == users[i]);
            }
            if k == id {
                assert(joined[users.len() as int] == user@);
            }
        }
    }
    assert(user_ids(joined) =~= table.insert(id, session).dom()) by {
        assert forall|k: u128| user_ids(joined).contains(k) == table.insert(id, session).dom().contains(k) by {
            assert(user_ids(users).contains(k) == has_user(users, k));
        }
    }
    lemma_without_user_unique(users, id);
    let left = Command::UserLeave(user).effect(l, issuer, fresh).connected_users;
    assert(user_ids(left) =~= table.remove(id).dom()) by {
        assert forall|k: u128| user_ids(left).contains(k) == table.remove(id).dom().contains(k) by {
            assert(user_ids(users).contains(k) == has_user(users, k));
        }
    }
}

} // verus!
