use crate::sources::{fresh_id, now_millis};
use crate::user::{User, UserView};
use vstd::prelude::*;

verus! {

/// The mathematical value of a task.
pub struct TaskView {
    pub id: u128,
    pub name: Seq<char>,
    pub assignee: UserView,
    pub done: bool,
}

/// The mathematical value of a list. Timestamps are milliseconds since the
/// Unix epoch.
pub struct ListView {
    pub id: u128,
    pub name: Seq<char>,
    pub tasks: Seq<TaskView>,
    pub created_at: int,
    pub last_updated_at: int,
    pub connected_users: Seq<UserView>,
}

/// The views of a sequence of tasks.
pub open spec fn task_views(tasks: Seq<TodoTask>) -> Seq<TaskView> {
    tasks.map_values(|t: TodoTask| t@)
}

/// The views of a sequence of users.
pub open spec fn user_views(users: Seq<User>) -> Seq<UserView> {
    users.map_values(|u: User| u@)
}

/// No two tasks share an identifier.
pub open spec fn unique_task_ids(tasks: Seq<TaskView>) -> bool {
    forall|i: int, j: int| 0 <= i < j < tasks.len() ==> tasks[i].id != tasks[j].id
}

/// No two users share an identifier.
pub open spec fn unique_user_ids(users: Seq<UserView>) -> bool {
    forall|i: int, j: int| 0 <= i < j < users.len() ==> users[i].id != users[j].id
}

/// Some task has identifier `id`.
pub open spec fn has_task(tasks: Seq<TaskView>, id: u128) -> bool {
    exists|i: int| 0 <= i < tasks.len() && tasks[i].id == id
}

/// Some user has identifier `id`.
pub open spec fn has_user(users: Seq<UserView>, id: u128) -> bool {
    exists|i: int| 0 <= i < users.len() && users[i].id == id
}

/// The identifiers of `users`, as a set.
pub open spec fn user_ids(users: Seq<UserView>) -> Set<u128> {
    Set::new(|id: u128| has_user(users, id))
}

impl ListView {
    /// The list's invariant: timestamps in order, task and user identifiers
    /// unique.
    pub open spec fn wf(self) -> bool {
        &&& self.created_at <= self.last_updated_at
        &&& unique_task_ids(self.tasks)
        &&& unique_user_ids(self.connected_users)
    }

    /// The projection kept in membership listings.
    pub open spec fn info(self) -> InfoView {
        InfoView { id: self.id, name: self.name }
    }
}

/// A task of a list.
pub struct TodoTask {
    id: u128,
    name: String,
    assignee: User,
    done: bool,
}

impl View for TodoTask {
    type V = TaskView;

    closed spec fn view(&self) -> TaskView {
        TaskView { id: self.id, name: self.name@, assignee: self.assignee@, done: self.done }
    }
}

impl Clone for TodoTask {
    fn clone(&self) -> (r: Self)
        ensures
            r == *self,
    {
        TodoTask {
            id: self.id,
            name: self.name.clone(),
            assignee: self.assignee.clone(),
            done: self.done,
        }
    }
}

impl TodoTask {
    /// A new task with a random identifier, an empty name, not done,
    /// assigned to `assignee`.
    pub fn new(assignee: User) -> (t: Self)
        ensures
            t@.name.len() == 0,
            t@.assignee == assignee@,
            !t@.done,
    {
        Self::with_id(fresh_id(), assignee)
    }

    /// A new task with identifier `id`, an empty name, not done, assigned to
    /// `assignee`.
    pub fn with_id(id: u128, assignee: User) -> (t: Self)
        ensures
            t@ == (TaskView { id, name: Seq::empty(), assignee: assignee@, done: false }),
    {
        TodoTask { id, name: String::new(), assignee, done: false }
    }

    pub fn id(&self) -> (id: u128)
        ensures
            id == self@.id,
    {
        self.id
    }

    pub fn name(&self) -> (s: &str)
        ensures
            s@ == self@.name,
    {
        self.name.as_str()
    }

    pub fn assignee(&self) -> (u: &User)
        ensures
            u@ == self@.assignee,
    {
        &self.assignee
    }

    pub fn is_done(&self) -> (d: bool)
        ensures
            d == self@.done,
    {
        self.done
    }

    pub fn assign_to(&mut self, assignee: User)
        ensures
            final(self)@ == (TaskView { assignee: assignee@, ..old(self)@ }),
    {
        self.assignee = assignee;
    }

    pub fn set_done(&mut self, done: bool)
        ensures
            final(self)@ == (TaskView { done, ..old(self)@ }),
    {
        self.done = done;
    }

    pub fn rename(&mut self, name: String)
        ensures
            final(self)@ == (TaskView { name: name@, ..old(self)@ }),
    {
        self.name = name;
    }
}


/// The mathematical value of a list descriptor.
pub struct InfoView {
    pub id: u128,
    pub name: Seq<char>,
}

/// A lightweight projection of a list: its identifier and name.
pub struct TodoListInfo {
    name: String,
    id: u128,
}

impl View for TodoListInfo {
    type V = InfoView;

    closed spec fn view(&self) -> InfoView {
        InfoView { id: self.id, name: self.name@ }
    }
}

impl Clone for TodoListInfo {
    fn clone(&self) -> (r: Self)
        ensures
            r == *self,
    {
        TodoListInfo { name: self.name.clone(), id: self.id }
    }
}

impl TodoListInfo {
    pub fn new_owned(id: u128, name: String) -> (i: Self)
        ensures
            i@ == (InfoView { id, name: name@ }),
    {
        TodoListInfo { name, id }
    }

    pub fn id(&self) -> (id: u128)
        ensures
            id == self@.id,
    {
        self.id
    }

    pub fn name(&self) -> (s: &str)
        ensures
            s@ == self@.name,
    {
        self.name.as_str()
    }

    pub fn id_mut(&mut self) -> (r: &mut u128)
        ensures
            *r == old(self)@.id,
            final(self)@ == (InfoView { id: *final(r), ..old(self)@ }),
    {
        &mut self.id
    }

    pub fn set_name(&mut self, name: String)
        ensures
            final(self)@ == (InfoView { name: name@, ..old(self)@ }),
    {
        self.name = name;
    }
}

/// `users` without those whose identifier is `id`, in order.
pub open spec fn without_user(users: Seq<UserView>, id: u128) -> Seq<UserView> {
    users.filter(|u: UserView| u.id != id)
}

/// Removing users keeps identifiers unique, and removes exactly the given one.
pub proof fn lemma_without_user_unique(users: Seq<UserView>, id: u128)
    requires
        unique_user_ids(users),
    ensures
        unique_user_ids(without_user(users, id)),
        forall|k: u128| has_user(without_user(users, id), k) <==> (has_user(users, k) && k != id),
    decreases users.len(),
{
    reveal(Seq::filter);
    if users.len() > 0 {
        let rest = users.drop_last();
        let x = users.last();
        assert(rest.push(x) =~= users);
        lemma_without_user_unique(rest, id);
        assert(without_user(users, id) == if x.id != id {
            without_user(rest, id).push(x)
        } else {
            without_user(rest, id)
        });
        assert forall|k: u128| has_user(users, k) <==> (has_user(rest, k) || x.id == k) by {
            if has_user(users, k) {
                let i = choose|i: int| 0 <= i < users.len() && users[i].id == k;
                if i < rest.len() {
                    assert(rest[i] == users[i]);
                }
            }
            if has_user(rest, k) {
                let i = choose|i: int| 0 <= i < rest.len() && rest[i].id == k;
                assert(users[i] == rest[i]);
            }
            if x.id == k {
                assert(users[users.len() - 1] == x);
            }
        }
        assert(!has_user(rest, x.id)) by {
            if has_user(rest, x.id) {
                let i = choose|i: int| 0 <= i < rest.len() && rest[i].id == x.id;
                assert(users[i] == rest[i]);
            }
        }
        if x.id != id {
            let w = without_user(rest, id);
            assert forall|k: u128| has_user(w.push(x), k) <==> (has_user(w, k) || x.id == k) by {
                if has_user(w.push(x), k) {
                    let i = choose|i: int| 0 <= i < w.push(x).len() && w.push(x)[i].id == k;
                    if i < w.len() {
                        assert(w[i] == w.push(x)[i]);
                    }
                }
                if has_user(w, k) {
                    let i = choose|i: int| 0 <= i < w.len() && w[i].id == k;
                    assert(w.push(x)[i] == w[i]);
                }
                if x.id == k {
                    assert(w.push(x)[w.len() as int] == x);
                }
            }
            assert forall|i: int, j: int| 0 <= i < j < w.push(x).len() implies w.push(x)[i].id
                != w.push(x)[j].id by {
                if j == w.len() {
                    assert(w.push(x)[i] == w[i]);
                    assert(has_user(w, w[i].id));
                }
            }
        }
    } else {
        assert(without_user(users, id) =~= users);
    }
}

/// The list a store holds under the given fields, if they make one.
pub open spec fn restored(
    id: u128,
    name: Seq<char>,
    tasks: Seq<TaskView>,
    created_at: int,
    last_updated_at: int,
    connected_users: Seq<UserView>,
) -> Option<ListView> {
    let l = ListView { id, name, tasks, created_at, last_updated_at, connected_users };
    if l.wf() {
        Some(l)
    } else {
        None
    }
}

/// Storing a list and loading it back yields the same list: same identifier,
/// name, tasks in order, timestamps and users.
pub proof fn lemma_store_load_round_trip(l: ListView)
    requires
        l.wf(),
    ensures
        restored(l.id, l.name, l.tasks, l.created_at, l.last_updated_at, l.connected_users) == Some(l),
{
}

/// Whether the identifiers of `tasks` are all different.
fn tasks_unique(tasks: &Vec<TodoTask>) -> (r: bool)
    ensures
        r == unique_task_ids(task_views(tasks@)),
{
    let ghost v = task_views(tasks@);
    let mut j: usize = 0;
    while j < tasks.len()
        invariant
            j <= tasks@.len(),
            v == task_views(tasks@),
            forall|a: int, b: int| 0 <= a < b < j ==> v[a].id != v[b].id,
        decreases tasks@.len() - j,
    {
        let mut i: usize = 0;
        while i < j
            invariant
                i <= j < tasks@.len(),
                v == task_views(tasks@),
                forall|a: int| 0 <= a < i ==> v[a].id != v[j as int].id,
            decreases j - i,
        {
            if tasks[i].id() == tasks[j].id() {
                assert(v[i as int].id == v[j as int].id);
                return false;
            }
            i = i + 1;
        }
        j = j + 1;
    }
    true
}

/// Whether the identifiers of `users` are all different.
fn users_unique(users: &Vec<User>) -> (r: bool)
    ensures
        r == unique_user_ids(user_views(users@)),
{
    let ghost v = user_views(users@);
    let mut j: usize = 0;
    while j < users.len()
        invariant
            j <= users@.len(),
            v == user_views(users@),
            forall|a: int, b: int| 0 <= a < b < j ==> v[a].id != v[b].id,
        decreases users@.len() - j,
    {
        let mut i: usize = 0;
        while i < j
            invariant
                i <= j < users@.len(),
                v == user_views(users@),
                forall|a: int| 0 <= a < i ==> v[a].id != v[j as int].id,
            decreases j - i,
        {
            if users[i].id() == users[j].id() {
                assert(v[i as int].id == v[j as int].id);
                return false;
            }
            i = i + 1;
        }
        j = j + 1;
    }
    true
}

/// A todo list: identity, name, tasks in insertion order, timestamps and the
/// users presently connected.
pub struct TodoList {
    id: u128,
    name: String,
    tasks: Vec<TodoTask>,
    created_at: i64,
    last_updated_at: i64,
    connected_users: Vec<User>,
}

impl View for TodoList {
    type V = ListView;

    closed spec fn view(&self) -> ListView {
        ListView {
            id: self.id,
            name: self.name@,
            tasks: task_views(self.tasks@),
            created_at: self.created_at as int,
            last_updated_at: self.last_updated_at as int,
            connected_users: user_views(self.connected_users@),
        }
    }
}

impl Clone for TodoList {
    fn clone(&self) -> (r: Self)
        ensures
            r@ == self@,
    {
        let mut tasks: Vec<TodoTask> = Vec::new();
        let mut i: usize = 0;
        while i < self.tasks.len()
            invariant
                i <= self.tasks@.len(),
                tasks@ == self.tasks@.take(i as int),
            decreases self.tasks@.len() - i,
        {
            tasks.push(self.tasks[i].clone());
            assert(self.tasks@.take(i + 1) =~= self.tasks@.take(i as int).push(self.tasks@[i as int]));
            i = i + 1;
        }
        assert(self.tasks@.take(i as int) =~= self.tasks@);
        let mut users: Vec<User> = Vec::new();
        let mut k: usize = 0;
        while k < self.connected_users.len()
            invariant
                k <= self.connected_users@.len(),
                users@ == self.connected_users@.take(k as int),
            decreases self.connected_users@.len() - k,
        {
            users.push(self.connected_users[k].clone());
            assert(self.connected_users@.take(k + 1) =~= self.connected_users@.take(k as int).push(
                self.connected_users@[k as int],
            ));
            k = k + 1;
        }
        assert(self.connected_users@.take(k as int) =~= self.connected_users@);
        TodoList {
            id: self.id,
            name: self.name.clone(),
            tasks,
            created_at: self.created_at,
            last_updated_at: self.last_updated_at,
            connected_users: users,
        }
    }
}

impl Default for TodoList {
    /// An empty list with a random identifier, created now.
    fn default() -> (l: Self)
        ensures
            l@.name.len() == 0,
            l@.tasks.len() == 0,
            l@.connected_users.len() == 0,
            l@.created_at == l@.last_updated_at,
            l.wf(),
    {
        Self::with_identity(fresh_id(), now_millis(), Vec::new())
    }
}

impl TodoList {
    pub open spec fn wf(&self) -> bool {
        self@.wf()
    }

    /// A list of the given tasks, with a random identifier, an empty name,
    /// no users, created now.
    pub fn new(tasks: Vec<TodoTask>) -> (l: Self)
        requires
            unique_task_ids(task_views(tasks@)),
        ensures
            l@.name.len() == 0,
            l@.tasks == task_views(tasks@),
            l@.connected_users.len() == 0,
            l@.created_at == l@.last_updated_at,
            l.wf(),
    {
        Self::with_identity(fresh_id(), now_millis(), tasks)
    }

    /// A list with identifier `id` created at time `now`, holding `tasks`,
    /// with an empty name and no users.
    pub fn with_identity(id: u128, now: i64, tasks: Vec<TodoTask>) -> (l: Self)
        requires
            unique_task_ids(task_views(tasks@)),
        ensures
            l@ == (ListView {
                id,
                name: Seq::empty(),
                tasks: task_views(tasks@),
                created_at: now as int,
                last_updated_at: now as int,
                connected_users: Seq::empty(),
            }),
            l.wf(),
    {
        let l = TodoList {
            id,
            name: String::new(),
            tasks,
            created_at: now,
            last_updated_at: now,
            connected_users: Vec::new(),
        };
        assert(user_views(l.connected_users@) =~= Seq::<UserView>::empty());
        l
    }

    /// Rebuilds a list from its stored fields. Fails where they break the
    /// list's invariant.
    pub fn from_parts(
        id: u128,
        name: String,
        tasks: Vec<TodoTask>,
        created_at: i64,
        last_updated_at: i64,
        connected_users: Vec<User>,
    ) -> (r: Option<Self>)
        ensures
            match r {
                Some(l) => Some(l@) == restored(
                    id,
                    name@,
                    task_views(tasks@),
                    created_at as int,
                    last_updated_at as int,
                    user_views(connected_users@),
                ),
                None => restored(
                    id,
                    name@,
                    task_views(tasks@),
                    created_at as int,
                    last_updated_at as int,
                    user_views(connected_users@),
                ) is None,
            },
    {
        if created_at <= last_updated_at && tasks_unique(&tasks) && users_unique(&connected_users) {
            Some(TodoList { id, name, tasks, created_at, last_updated_at, connected_users })
        } else {
            None
        }
    }

    pub fn id(&self) -> (id: u128)
        ensures
            id == self@.id,
    {
        self.id
    }

    pub fn name(&self) -> (s: &str)
        ensures
            s@ == self@.name,
    {
        self.name.as_str()
    }

    pub fn created_at(&self) -> (t: i64)
        ensures
            t as int == self@.created_at,
    {
        self.created_at
    }

    pub fn last_updated_at(&self) -> (t: i64)
        ensures
            t as int == self@.last_updated_at,
    {
        self.last_updated_at
    }

    pub fn rename(&mut self, name: String)
        ensures
            final(self)@ == (ListView { name: name@, ..old(self)@ }),
    {
        self.name = name;
    }

    /// Stamps the list as updated at `now`; the stamp never moves backwards.
    pub fn update_time(&mut self, now: i64)
        ensures
            final(self)@ == (ListView {
                last_updated_at: if now as int > old(self)@.last_updated_at {
                    now as int
                } else {
                    old(self)@.last_updated_at
                },
                ..old(self)@
            }),
    {
        if now > self.last_updated_at {
            self.last_updated_at = now;
        }
    }

    /// Appends `task`, whose identifier no task of the list has.
    pub fn add_task(&mut self, task: TodoTask)
        requires
            !has_task(old(self)@.tasks, task@.id),
        ensures
            final(self)@ == (ListView { tasks: old(self)@.tasks.push(task@), ..old(self)@ }),
    {
        let ghost t = task@;
        self.tasks.push(task);
        assert(task_views(self.tasks@) =~= task_views(old(self).tasks@).push(t));
    }

    pub fn tasks(&self) -> (s: &[TodoTask])
        ensures
            task_views(s@) == self@.tasks,
    {
        self.tasks.as_slice()
    }

    /// Where the task with identifier `id` stands, if there is one.
    pub fn task_position(&self, id: u128) -> (r: Option<usize>)
        ensures
            match r {
                Some(i) => i < self@.tasks.len() && self@.tasks[i as int].id == id,
                None => !has_task(self@.tasks, id),
            },
    {
        let mut i: usize = 0;
        while i < self.tasks.len()
            invariant
                i <= self.tasks@.len(),
                forall|j: int| 0 <= j < i ==> self@.tasks[j].id != id,
            decreases self.tasks@.len() - i,
        {
            if self.tasks[i].id() == id {
                return Some(i);
            }
            i = i + 1;
        }
        None
    }

    /// The task with identifier `id`, if there is one.
    pub fn task(&self, id: u128) -> (r: Option<&TodoTask>)
        ensures
            match r {
                Some(t) => t@.id == id && self@.tasks.contains(t@),
                None => !has_task(self@.tasks, id),
            },
    {
        match self.task_position(id) {
            Some(i) => {
                let t = &self.tasks[i];
                assert(self@.tasks[i as int] == t@);
                Some(t)
            },
            None => None,
        }
    }

    /// Sets the `done` flag of the task at position `i`.
    pub fn set_task_done(&mut self, i: usize, done: bool)
        requires
            i < old(self)@.tasks.len(),
        ensures
            final(self)@ == (ListView {
                tasks: old(self)@.tasks.update(i as int, TaskView { done, ..old(self)@.tasks[i as int] }),
                ..old(self)@
            }),
    {
        self.tasks[i].set_done(done);
        assert(task_views(self.tasks@) =~= old(self)@.tasks.update(
            i as int,
            TaskView { done, ..old(self)@.tasks[i as int] },
        ));
    }

    /// Assigns the task at position `i` to `assignee`.
    pub fn assign_task(&mut self, i: usize, assignee: User)
        requires
            i < old(self)@.tasks.len(),
        ensures
            final(self)@ == (ListView {
                tasks: old(self)@.tasks.update(
                    i as int,
                    TaskView { assignee: assignee@, ..old(self)@.tasks[i as int] },
                ),
                ..old(self)@
            }),
    {
        let ghost a = assignee@;
        self.tasks[i].assign_to(assignee);
        assert(task_views(self.tasks@) =~= old(self)@.tasks.update(
            i as int,
            TaskView { assignee: a, ..old(self)@.tasks[i as int] },
        ));
    }

    /// Renames the task at position `i`.
    pub fn rename_task(&mut self, i: usize, name: String)
        requires
            i < old(self)@.tasks.len(),
        ensures
            final(self)@ == (ListView {
                tasks: old(self)@.tasks.update(i as int, TaskView { name: name@, ..old(self)@.tasks[i as int] }),
                ..old(self)@
            }),
    {
        let ghost n = name@;
        self.tasks[i].rename(name);
        assert(task_views(self.tasks@) =~= old(self)@.tasks.update(
            i as int,
            TaskView { name: n, ..old(self)@.tasks[i as int] },
        ));
    }

    pub fn connected_users(&self) -> (s: &[User])
        ensures
            user_views(s@) == self@.connected_users,
    {
        self.connected_users.as_slice()
    }

    /// Whether a user with identifier `id` is connected.
    pub fn is_connected(&self, id: u128) -> (r: bool)
        ensures
            r == has_user(self@.connected_users, id),
    {
        let mut i: usize = 0;
        while i < self.connected_users.len()
            invariant
                i <= self.connected_users@.len(),
                forall|j: int| 0 <= j < i ==> self@.connected_users[j].id != id,
            decreases self.connected_users@.len() - i,
        {
            if self.connected_users[i].id() == id {
                assert(self@.connected_users[i as int].id == id);
                return true;
            }
            i = i + 1;
        }
        false
    }

    /// Appends `user` unless a user with the same identifier is connected.
    pub fn add_user(&mut self, user: User)
        ensures
            final(self)@ == (ListView {
                connected_users: if has_user(old(self)@.connected_users, user@.id) {
                    old(self)@.connected_users
                } else {
                    old(self)@.connected_users.push(user@)
                },
                ..old(self)@
            }),
    {
        if !self.is_connected(user.id()) {
            let ghost u = user@;
            self.connected_users.push(user);
            assert(user_views(self.connected_users@) =~= user_views(old(self).connected_users@).push(u));
        }
    }

    /// Removes every user with identifier `id`.
    pub fn remove_user(&mut self, id: u128)
        ensures
            final(self)@ == (ListView {
                connected_users: without_user(old(self)@.connected_users, id),
                ..old(self)@
            }),
    {
        let mut kept: Vec<User> = Vec::new();
        let mut i: usize = 0;
        while i < self.connected_users.len()
            invariant
                i <= self.connected_users@.len(),
                user_views(kept@) == without_user(user_views(self.connected_users@).take(i as int), id),
            decreases self.connected_users@.len() - i,
        {
            reveal(Seq::filter);
            let ghost all = user_views(self.connected_users@);
            assert(all.take(i + 1).drop_last() =~= all.take(i as int));
            assert(all.take(i + 1).last() == all[i as int]);
            if self.connected_users[i].id() != id {
                kept.push(self.connected_users[i].clone());
                assert(user_views(kept@) =~= user_views(kept@).drop_last().push(all[i as int]));
                assert(user_views(kept@).drop_last() =~= user_views(kept@.drop_last()));
            }
            i = i + 1;
        }
        assert(user_views(self.connected_users@).take(i as int) =~= user_views(self.connected_users@));
        self.connected_users = kept;
    }

    /// The list's identifier and name.
    pub fn as_info(&self) -> (i: TodoListInfo)
        ensures
            i@ == self@.info(),
    {
        TodoListInfo { name: self.name.clone(), id: self.id }
    }
}

} // verus!
