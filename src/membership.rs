use crate::list::{InfoView, TodoList, TodoListInfo};
use vstd::prelude::*;

verus! {

/// Some descriptor in `infos` has identifier `id`.
pub open spec fn has_list(infos: Seq<InfoView>, id: u128) -> bool {
    exists|i: int| 0 <= i < infos.len() && infos[i].id == id
}

/// No two descriptors share an identifier.
pub open spec fn unique_list_ids(infos: Seq<InfoView>) -> bool {
    forall|i: int, j: int| 0 <= i < j < infos.len() ==> infos[i].id != infos[j].id
}

/// `infos` without the descriptors of list `id`, in order.
pub open spec fn without_list(infos: Seq<InfoView>, id: u128) -> Seq<InfoView> {
    infos.filter(|i: InfoView| i.id != id)
}

/// The views of a sequence of descriptors.
pub open spec fn info_views(infos: Seq<TodoListInfo>) -> Seq<InfoView> {
    infos.map_values(|i: TodoListInfo| i@)
}

proof fn lemma_without_list_unique(infos: Seq<InfoView>, id: u128)
    requires
        unique_list_ids(infos),
    ensures
        unique_list_ids(without_list(infos, id)),
        forall|k: u128| has_list(without_list(infos, id), k) ==> has_list(infos, k),
    decreases infos.len(),
{
    reveal(Seq::filter);
    if infos.len() > 0 {
        let rest = infos.drop_last();
        let x = infos.last();
        lemma_without_list_unique(rest, id);
        let w = without_list(rest, id);
        assert forall|k: u128| has_list(rest, k) implies has_list(infos, k) by {
            let i = choose|i: int| 0 <= i < rest.len() && rest[i].id == k;
            assert(infos[i] == rest[i]);
        }
        assert(!has_list(rest, x.id)) by {
            if has_list(rest, x.id) {
                let i = choose|i: int| 0 <= i < rest.len() && rest[i].id == x.id;
                assert(infos[i] == rest[i]);
            }
        }
        if x.id != id {
            assert(without_list(infos, id) == w.push(x));
            assert forall|k: u128| has_list(w.push(x), k) implies has_list(infos, k) by {
                let i = choose|i: int| 0 <= i < w.push(x).len() && w.push(x)[i].id == k;
                if i < w.len() {
                    assert(w[i] == w.push(x)[i]);
                    assert(has_list(w, k));
                } else {
                    assert(infos[infos.len() - 1] == x);
                }
            }
            assert forall|i: int, j: int| 0 <= i < j < w.push(x).len() implies w.push(x)[i].id
                != w.push(x)[j].id by {
                if j == w.len() {
                    assert(w.push(x)[i] == w[i]);
                    assert(has_list(w, w[i].id));
                }
            }
        } else {
            assert(without_list(infos, id) == w);
        }
    } else {
        assert(without_list(infos, id) =~= infos);
    }
}

/// The lists a session has joined, in the order it joined them; each list
/// appears at most once.
pub struct SessionMembership {
    user_lists: Vec<TodoListInfo>,
}

impl View for SessionMembership {
    type V = Seq<InfoView>;

    closed spec fn view(&self) -> Seq<InfoView> {
        info_views(self.user_lists@)
    }
}

impl SessionMembership {
    pub open spec fn wf(&self) -> bool {
        unique_list_ids(self@)
    }

    /// A session that has joined no list.
    pub fn new() -> (m: Self)
        ensures
            m@ == Seq::<InfoView>::empty(),
            m.wf(),
    {
        let m = SessionMembership { user_lists: Vec::new() };
        assert(m@ =~= Seq::<InfoView>::empty());
        m
    }

    /// The descriptors, in the order the lists were joined.
    pub fn user_lists(&self) -> (s: &[TodoListInfo])
        ensures
            info_views(s@) == self@,
    {
        self.user_lists.as_slice()
    }

    /// Whether list `id` is among the joined lists.
    pub fn contains(&self, id: u128) -> (r: bool)
        ensures
            r == has_list(self@, id),
    {
        let mut i: usize = 0;
        while i < self.user_lists.len()
            invariant
                i <= self.user_lists@.len(),
                forall|j: int| 0 <= j < i ==> self@[j].id != id,
            decreases self.user_lists@.len() - i,
        {
            if self.user_lists[i].id() == id {
                assert(self@[i as int].id == id);
                return true;
            }
            i = i + 1;
        }
        false
    }

    /// Records that the session joined the list of `info`, unless it had
    /// already.
    pub fn join_todo_list(&mut self, info: TodoListInfo)
        requires
            old(self).wf(),
        ensures
            final(self).wf(),
            final(self)@ == if has_list(old(self)@, info@.id) {
                old(self)@
            } else {
                old(self)@.push(info@)
            },
    {
        if !self.contains(info.id()) {
            let ghost v = info@;
            self.user_lists.push(info);
            assert(self@ =~= old(self)@.push(v));
            assert forall|i: int, j: int| 0 <= i < j < self@.len() implies self@[i].id != self@[j].id by {
                if j == old(self)@.len() {
                    assert(self@[i] == old(self)@[i]);
                }
            }
        }
    }

    /// Forgets list `id`.
    pub fn leave_todo_list(&mut self, id: u128)
        requires
            old(self).wf(),
        ensures
            final(self).wf(),
            final(self)@ == without_list(old(self)@, id),
    {
        let mut kept: Vec<TodoListInfo> = Vec::new();
        let mut i: usize = 0;
        while i < self.user_lists.len()
            invariant
                i <= self.user_lists@.len(),
                info_views(kept@) == without_list(info_views(self.user_lists@).take(i as int), id),
            decreases self.user_lists@.len() - i,
        {
            reveal(Seq::filter);
            let ghost all = info_views(self.user_lists@);
            assert(all.take(i + 1).drop_last() =~= all.take(i as int));
            assert(all.take(i + 1).last() == all[i as int]);
            if self.user_lists[i].id() != id {
                kept.push(self.user_lists[i].clone());
                assert(info_views(kept@) =~= info_views(kept@).drop_last().push(all[i as int]));
                assert(info_views(kept@).drop_last() =~= info_views(kept@.drop_last()));
            }
            i = i + 1;
        }
        assert(info_views(self.user_lists@).take(i as int) =~= info_views(self.user_lists@));
        proof {
            lemma_without_list_unique(old(self)@, id);
        }
        self.user_lists = kept;
    }
}

/// The descriptor of a joined list with its current name: the live list's
/// where the list is live, else the name the store gave, else as it was.
pub fn refreshed_info(info: &TodoListInfo, live: Option<&TodoList>, stored_name: Option<String>) -> (r: TodoListInfo)
    ensures
        match (live, stored_name) {
            (Some(l), _) => r@ == l@.info(),
            (None, Some(n)) => r@ == (InfoView { id: info@.id, name: n@ }),
            (None, None) => r@ == info@,
        },
{
    match live {
        Some(l) => l.as_info(),
        None => match stored_name {
            Some(n) => TodoListInfo::new_owned(info.id(), n),
            None => info.clone(),
        },
    }
}

} // verus!
