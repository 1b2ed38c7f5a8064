use crate::list::{
    has_task, has_user, lemma_without_user_unique, unique_task_ids, unique_user_ids,
    without_user, ListView, TaskView, TodoList,
};
use crate::user::{User, UserView};
use vstd::prelude::*;

verus! {

/// A command that changes a list when applied on behalf of an issuer.
pub trait Applicable: Sized {
    /// The list after `self` is applied to `l` on behalf of `issuer`, where
    /// `fresh` is the identifier that a task created by it receives.
    spec fn effect(&self, l: ListView, issuer: UserView, fresh: u128) -> ListView;

    /// Whether `self` takes effect on `l`; one that does not leaves it as it is.
    spec fn takes_effect(&self, l: ListView, fresh: u128) -> bool;

    fn apply(self, todo: &mut TodoList, issuer: User, fresh: u128) -> (changed: bool)
        requires
            old(todo).wf(),
        ensures
            final(todo)@ == self.effect(old(todo)@, issuer@, fresh),
            changed == self.takes_effect(old(todo)@, fresh),
            !changed ==> final(todo)@ == old(todo)@,
            final(todo).wf(),
    ;
}

/// A command together with the user on whose behalf it is applied.
pub struct TodoCommand {
    pub issuer: User,
    pub command: Command,
}

/// The mutations of a list.
pub enum Command {
    TaskCommand(TaskCommandMeta),
    CreateTask,
    UserJoin(User),
    UserLeave(User),
    SetListName(String),
}

/// A task command addressed to the task with identifier `task`.
pub struct TaskCommandMeta {
    pub task: u128,
    pub command: TaskCommand,
}

/// The mutations of a single task.
pub enum TaskCommand {
    SetDone(bool),
    Rename(String),
    SetAssignee(User),
}

impl TaskCommand {
    /// The task after `self`, issued by `issuer`. Setting the done flag also
    /// assigns the task to the issuer.
    pub open spec fn on_task(&self, t: TaskView, issuer: UserView) -> TaskView {
        match self {
            TaskCommand::SetDone(done) => TaskView { done: *done, assignee: issuer, ..t },
            TaskCommand::Rename(name) => TaskView { name: name@, ..t },
            TaskCommand::SetAssignee(user) => TaskView { assignee: user@, ..t },
        }
    }
}

/// The tasks after the task with identifier `id` is replaced by `cmd`'s
/// effect on it.
pub open spec fn tasks_after(tasks: Seq<TaskView>, id: u128, cmd: TaskCommand, issuer: UserView) -> Seq<
    TaskView,
> {
    tasks.map_values(|t: TaskView| if t.id == id { cmd.on_task(t, issuer) } else { t })
}

/// The task a list gains from `CreateTask`.
pub open spec fn created_task(fresh: u128, issuer: UserView) -> TaskView {
    TaskView { id: fresh, name: Seq::empty(), assignee: issuer, done: false }
}

impl Applicable for TaskCommandMeta {
    open spec fn effect(&self, l: ListView, issuer: UserView, fresh: u128) -> ListView {
        if has_task(l.tasks, self.task) {
            ListView { tasks: tasks_after(l.tasks, self.task, self.command, issuer), ..l }
        } else {
            l
        }
    }

    open spec fn takes_effect(&self, l: ListView, fresh: u128) -> bool {
        has_task(l.tasks, self.task)
    }

    fn apply(self, todo: &mut TodoList, issuer: User, fresh: u128) -> (changed: bool) {
        let ghost before = todo@;
        let ghost who = issuer@;
        let ghost cmd = self.command;
        let id = self.task;
        match todo.task_position(id) {
            None => false,
            Some(i) => {
                match self.command {
                    TaskCommand::SetDone(done) => {
                        todo.set_task_done(i, done);
                        todo.assign_task(i, issuer);
                    },
                    TaskCommand::Rename(name) => {
                        todo.rename_task(i, name);
                    },
                    TaskCommand::SetAssignee(assignee) => {
                        todo.assign_task(i, assignee);
                    },
                }
                assert(todo@.tasks =~= tasks_after(before.tasks, id, cmd, who)) by {
                    assert forall|k: int| 0 <= k < before.tasks.len() && k != i implies before.tasks[k].id
                        != id by {
                        if k < i {
                            assert(before.tasks[k].id != before.tasks[i as int].id);
                        } else {
                            assert(before.tasks[i as int].id != before.tasks[k].id);
                        }
                    }
                }
                assert(unique_task_ids(todo@.tasks)) by {
                    assert forall|a: int, b: int| 0 <= a < b < todo@.tasks.len() implies todo@.tasks[a].id
                        != todo@.tasks[b].id by {
                        assert(todo@.tasks[a].id == before.tasks[a].id);
                        assert(todo@.tasks[b].id == before.tasks[b].id);
                    }
                }
                true
            },
        }
    }
}

impl Applicable for Command {
    open spec fn effect(&self, l: ListView, issuer: UserView, fresh: u128) -> ListView {
        match self {
            Command::TaskCommand(meta) => meta.effect(l, issuer, fresh),
            Command::CreateTask => if has_task(l.tasks, fresh) {
                l
            } else {
                ListView { tasks: l.tasks.push(created_task(fresh, issuer)), ..l }
            },
            Command::UserJoin(user) => if has_user(l.connected_users, user@.id) {
                l
            } else {
                ListView { connected_users: l.connected_users.push(user@), ..l }
            },
            Command::UserLeave(user) => ListView {
                connected_users: without_user(l.connected_users, user@.id),
                ..l
            },
            Command::SetListName(name) => ListView { name: name@, ..l },
        }
    }

    open spec fn takes_effect(&self, l: ListView, fresh: u128) -> bool {
        match self {
            Command::TaskCommand(meta) => meta.takes_effect(l, fresh),
            Command::CreateTask => !has_task(l.tasks, fresh),
            _ => true,
        }
    }

    fn apply(self, todo: &mut TodoList, issuer: User, fresh: u128) -> (changed: bool) {
        let ghost before = todo@;
        match self {
            Command::TaskCommand(meta) => meta.apply(todo, issuer, fresh),
            Command::CreateTask => {
                if todo.task_position(fresh).is_some() {
                    false
                } else {
                    let task = crate::list::TodoTask::with_id(fresh, issuer);
                    todo.add_task(task);
                    assert(unique_task_ids(todo@.tasks)) by {
                        assert forall|a: int, b: int| 0 <= a < b < todo@.tasks.len() implies todo@.tasks[a].id
                            != todo@.tasks[b].id by {
                            if b == before.tasks.len() {
                                assert(todo@.tasks[a] == before.tasks[a]);
                            }
                        }
                    }
                    true
                }
            },
            Command::UserJoin(user) => {
                let ghost u = user@;
                todo.add_user(user);
                assert(unique_user_ids(todo@.connected_users)) by {
                    if !has_user(before.connected_users, u.id) {
                        assert forall|a: int, b: int| 0 <= a < b < todo@.connected_users.len() implies todo@.connected_users[a].id
                            != todo@.connected_users[b].id by {
                            if b == before.connected_users.len() {
                                assert(todo@.connected_users[a] == before.connected_users[a]);
                            }
                        }
                    }
                }
                true
            },
            Command::UserLeave(user) => {
                proof {
                    lemma_without_user_unique(before.connected_users, user@.id);
                }
                todo.remove_user(user.id());
                true
            },
            Command::SetListName(name) => {
                todo.rename(name);
                true
            },
        }
    }
}

impl Command {
    /// Pairs the command with the user on whose behalf it is applied.
    pub fn with_issuer(self, issuer: User) -> (c: TodoCommand)
        ensures
            c.issuer == issuer,
            c.command == self,
    {
        TodoCommand { issuer, command: self }
    }

    /// Whether a client may send this command. Joins and leaves are issued
    /// by the server alone.
    pub open spec fn is_client_command_spec(&self) -> bool {
        !(self is UserJoin || self is UserLeave)
    }

    /// Whether a client may send this command.
    pub fn is_client_command(&self) -> (r: bool)
        ensures
            r == self.is_client_command_spec(),
    {
        match self {
            Command::UserJoin(_) | Command::UserLeave(_) => false,
            _ => true,
        }
    }
}


/// One command as the actor applies it: the command, its issuer and the
/// identifier a task created by it receives.
pub struct Issued {
    pub command: Command,
    pub issuer: UserView,
    pub fresh: u128,
}

/// The list after the commands of `cmds`, in order, are applied to `l`.
pub open spec fn apply_all(l: ListView, cmds: Seq<Issued>) -> ListView
    decreases cmds.len(),
{
    if cmds.len() == 0 {
        l
    } else {
        let c = cmds.last();
        c.command.effect(apply_all(l, cmds.drop_last()), c.issuer, c.fresh)
    }
}

/// How many of `cmds` are `CreateTask`.
pub open spec fn count_creates(cmds: Seq<Issued>) -> nat
    decreases cmds.len(),
{
    if cmds.len() == 0 {
        0
    } else {
        count_creates(cmds.drop_last()) + if cmds.last().command is CreateTask {
            1nat
        } else {
            0nat
        }
    }
}

/// The identifiers handed to the commands of `cmds` are all different.
pub open spec fn distinct_fresh(cmds: Seq<Issued>) -> bool {
    forall|i: int, j: int| 0 <= i < j < cmds.len() ==> cmds[i].fresh != cmds[j].fresh
}

proof fn lemma_tasks_after_ids(tasks: Seq<TaskView>, id: u128, cmd: TaskCommand, issuer: UserView)
    ensures
        tasks_after(tasks, id, cmd, issuer).len() == tasks.len(),
        forall|i: int| 0 <= i < tasks.len() ==> #[trigger] tasks_after(tasks, id, cmd, issuer)[i].id == tasks[i].id,
{
}

proof fn lemma_count_and_origin(l: ListView, cmds: Seq<Issued>)
    requires
        l.tasks.len() == 0,
        distinct_fresh(cmds),
    ensures
        apply_all(l, cmds).tasks.len() == count_creates(cmds),
        forall|k: u128| has_task(apply_all(l, cmds).tasks, k) ==> exists|i: int| 0 <= i < cmds.len() && cmds[i].fresh == k,
    decreases cmds.len(),
{
    if cmds.len() > 0 {
        let prev = cmds.drop_last();
        let c = cmds.last();
        assert(distinct_fresh(prev)) by {
            assert forall|i: int, j: int| 0 <= i < j < prev.len() implies prev[i].fresh != prev[j].fresh by {
                assert(prev[i] == cmds[i] && prev[j] == cmds[j]);
            }
        }
        lemma_count_and_origin(l, prev);
        let before = apply_all(l, prev);
        let after = apply_all(l, cmds);
        match c.command {
            Command::TaskCommand(meta) => {
                lemma_tasks_after_ids(before.tasks, meta.task, meta.command, c.issuer);
                assert forall|k: u128| has_task(after.tasks, k) implies exists|i: int| 0 <= i < cmds.len() && cmds[i].fresh == k by {
                    let j = choose|j: int| 0 <= j < after.tasks.len() && after.tasks[j].id == k;
                    if has_task(before.tasks, meta.task) {
                        assert(before.tasks[j].id == k);
                    }
                    assert(has_task(before.tasks, k));
                    let i = choose|i: int| 0 <= i < prev.len() && prev[i].fresh == k;
                    assert(cmds[i] == prev[i]);
                }
            },
            Command::CreateTask => {
                assert(!has_task(before.tasks, c.fresh)) by {
                    if has_task(before.tasks, c.fresh) {
                        let i = choose|i: int| 0 <= i < prev.len() && prev[i].fresh == c.fresh;
                        assert(cmds[i] == prev[i]);
                        assert(cmds[cmds.len() - 1] == c);
                    }
                }
                assert forall|k: u128| has_task(after.tasks, k) implies exists|i: int| 0 <= i < cmds.len() && cmds[i].fresh == k by {
                    let j = choose|j: int| 0 <= j < after.tasks.len() && after.tasks[j].id == k;
                    if j < before.tasks.len() {
                        assert(after.tasks[j] == before.tasks[j]);
                        assert(has_task(before.tasks, k));
                        let i = choose|i: int| 0 <= i < prev.len() && prev[i].fresh == k;
                        assert(cmds[i] == prev[i]);
                    } else {
                        assert(cmds[cmds.len() - 1].fresh == k);
                    }
                }
            },
            _ => {
                assert forall|k: u128| has_task(after.tasks, k) implies exists|i: int| 0 <= i < cmds.len() && cmds[i].fresh == k by {
                    assert(has_task(before.tasks, k));
                    let i = choose|i: int| 0 <= i < prev.len() && prev[i].fresh == k;
                    assert(cmds[i] == prev[i]);
                }
            },
        }
    }
}

/// Applied to a list without tasks, any sequence of commands leaves as many
/// tasks as it holds `CreateTask` commands, provided each command is handed
/// its own new identifier.
pub proof fn lemma_task_count(l: ListView, cmds: Seq<Issued>)
    requires
        l.tasks.len() == 0,
        distinct_fresh(cmds),
    ensures
        apply_all(l, cmds).tasks.len() == count_creates(cmds),
{
    lemma_count_and_origin(l, cmds);
}

/// Renaming a list twice to the same name has the effect of renaming it once.
pub proof fn lemma_rename_idempotent(l: ListView, name: String, a: UserView, b: UserView, f: u128, g: u128)
    ensures
        Command::SetListName(name).effect(Command::SetListName(name).effect(l, a, f), b, g)
            == Command::SetListName(name).effect(l, a, f),
{
}

/// Marking a task done and then not done leaves it not done and assigned to
/// the second issuer; the other tasks are untouched.
pub proof fn lemma_done_then_undone(l: ListView, task: u128, a: UserView, b: UserView, f: u128, g: u128)
    requires
        has_task(l.tasks, task),
    ensures
        ({
            let once = Command::TaskCommand(TaskCommandMeta { task, command: TaskCommand::SetDone(true) }).effect(l, a, f);
            let twice = Command::TaskCommand(TaskCommandMeta { task, command: TaskCommand::SetDone(false) }).effect(once, b, g);
            &&& twice.tasks.len() == l.tasks.len()
            &&& forall|i: int| 0 <= i < l.tasks.len() && l.tasks[i].id == task ==> twice.tasks[i] == (TaskView {
                done: false,
                assignee: b,
                ..l.tasks[i]
            })
            &&& forall|i: int| 0 <= i < l.tasks.len() && l.tasks[i].id != task ==> twice.tasks[i] == l.tasks[i]
        }),
{
    let once = Command::TaskCommand(TaskCommandMeta { task, command: TaskCommand::SetDone(true) }).effect(l, a, f);
    let j = choose|j: int| 0 <= j < l.tasks.len() && l.tasks[j].id == task;
    assert(once.tasks[j].id == task);
    assert(has_task(once.tasks, task));
}

} // verus!
