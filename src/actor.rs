use crate::command::{Applicable, Command, TodoCommand};
use crate::list::{ListView, TodoList};
use crate::user::UserView;
use vstd::prelude::*;

verus! {

/// `l` stamped as updated at `now`; the stamp never moves backwards.
pub open spec fn stamped(l: ListView, now: int) -> ListView {
    ListView {
        last_updated_at: if now > l.last_updated_at {
            now
        } else {
            l.last_updated_at
        },
        ..l
    }
}

/// The list after the actor handles `cmd`, issued by `issuer`, at time
/// `now`, with `fresh` for a task it creates. A command that takes no effect
/// leaves the list as it is, unstamped.
pub open spec fn step(l: ListView, cmd: Command, issuer: UserView, fresh: u128, now: int) -> ListView {
    if cmd.takes_effect(l, fresh) {
        stamped(cmd.effect(l, issuer, fresh), now)
    } else {
        l
    }
}

/// The mathematical value of an actor.
pub struct ActorView {
    pub list: ListView,
    /// Changed since the last successful store.
    pub dirty: bool,
    /// How many snapshots have been published.
    pub version: nat,
    /// The intake has closed; no more commands are handled.
    pub stopped: bool,
}

/// The single writer of one list. It applies commands in the order they are
/// handed to it, tells which snapshots to publish, and runs a write-behind
/// to the store: what changed is stored on the next tick, and stays due
/// until a store of the latest snapshot succeeds.
pub struct ListActor {
    list: TodoList,
    dirty: bool,
    version: u64,
    stopped: bool,
}

impl View for ListActor {
    type V = ActorView;

    closed spec fn view(&self) -> ActorView {
        ActorView {
            list: self.list@,
            dirty: self.dirty,
            version: self.version as nat,
            stopped: self.stopped,
        }
    }
}

impl ListActor {
    pub open spec fn wf(&self) -> bool {
        self@.list.wf()
    }

    /// An actor owning `list`, as loaded: nothing is due to be stored.
    pub fn new(list: TodoList) -> (a: Self)
        requires
            list.wf(),
        ensures
            a@ == (ActorView { list: list@, dirty: false, version: 0, stopped: false }),
            a.wf(),
    {
        ListActor { list, dirty: false, version: 0, stopped: false }
    }

    /// The list as it stands.
    pub fn list(&self) -> (l: &TodoList)
        ensures
            l@ == self@.list,
    {
        &self.list
    }

    /// How many snapshots have been published.
    pub fn version(&self) -> (v: u64)
        ensures
            v as nat == self@.version,
    {
        self.version
    }

    /// Handles one command. Where it takes effect, the list is stamped and
    /// marked as due for storing, and the new state is returned: it is to be
    /// published before the next command is handled.
    pub fn on_command(&mut self, cmd: TodoCommand, fresh: u128, now: i64) -> (published: Option<TodoList>)
        requires
            old(self).wf(),
            !old(self)@.stopped,
            old(self)@.version < u64::MAX,
        ensures
            final(self).wf(),
            final(self)@.list == step(old(self)@.list, cmd.command, cmd.issuer@, fresh, now as int),
            final(self)@.stopped == old(self)@.stopped,
            cmd.command.takes_effect(old(self)@.list, fresh) ==> {
                &&& final(self)@.dirty
                &&& final(self)@.version == old(self)@.version + 1
                &&& published matches Some(s) && s@ == final(self)@.list
            },
            !cmd.command.takes_effect(old(self)@.list, fresh) ==> {
                &&& final(self)@ == old(self)@
                &&& published is None
            },
    {
        let TodoCommand { issuer, command } = cmd;
        let changed = command.apply(&mut self.list, issuer, fresh);
        if changed {
            self.list.update_time(now);
            self.dirty = true;
            self.version = self.version + 1;
            Some(self.list.clone())
        } else {
            None
        }
    }

    /// On a tick of the store timer: the version and snapshot to store, where
    /// a change is due.
    pub fn on_tick(&self) -> (r: Option<(u64, TodoList)>)
        ensures
            self@.dirty ==> (r matches Some((v, s)) && v as nat == self@.version && s@ == self@.list),
            !self@.dirty ==> r is None,
    {
        if self.dirty {
            Some((self.version, self.list.clone()))
        } else {
            None
        }
    }

    /// Records the outcome of storing snapshot `version`. Only a successful
    /// store of the latest snapshot clears the due change; a failure leaves
    /// it due for the next tick.
    pub fn on_stored(&mut self, version: u64, ok: bool)
        ensures
            final(self)@ == (ActorView {
                dirty: old(self)@.dirty && !(ok && version as nat == old(self)@.version),
                ..old(self)@
            }),
    {
        if ok && version == self.version {
            self.dirty = false;
        }
    }

    /// The intake has closed: the actor stops. Returns the last snapshot to
    /// store, where a change is still due.
    pub fn close(&mut self) -> (r: Option<(u64, TodoList)>)
        ensures
            final(self)@ == (ActorView { stopped: true, ..old(self)@ }),
            old(self)@.dirty ==> (r matches Some((v, s)) && v as nat == old(self)@.version && s@
                == old(self)@.list),
            !old(self)@.dirty ==> r is None,
    {
        self.stopped = true;
        self.on_tick()
    }
}

/// One command as the actor handles it, with the time it is handled at.
pub struct Step {
    pub command: Command,
    pub issuer: UserView,
    pub fresh: u128,
    pub now: int,
}

/// The list after the actor handles `steps` in order, starting from `l`.
pub open spec fn run(l: ListView, steps: Seq<Step>) -> ListView
    decreases steps.len(),
{
    if steps.len() == 0 {
        l
    } else {
        let s = steps.last();
        step(run(l, steps.drop_last()), s.command, s.issuer, s.fresh, s.now)
    }
}

/// A command's effect leaves the update stamp alone.
pub proof fn lemma_effect_keeps_stamp(l: ListView, cmd: Command, issuer: UserView, fresh: u128)
    ensures
        cmd.effect(l, issuer, fresh).last_updated_at == l.last_updated_at,
        cmd.effect(l, issuer, fresh).created_at == l.created_at,
{
}

/// The snapshots an actor publishes while handling a sequence of commands
/// are monotone in their update stamp: a later one is never older.
pub proof fn lemma_snapshots_monotone(l: ListView, steps: Seq<Step>, i: int, j: int)
    requires
        0 <= i <= j <= steps.len(),
    ensures
        run(l, steps.take(i)).last_updated_at <= run(l, steps.take(j)).last_updated_at,
    decreases j - i,
{
    if i < j {
        lemma_snapshots_monotone(l, steps, i, j - 1);
        let prefix = steps.take(j);
        assert(prefix.drop_last() =~= steps.take(j - 1));
        let s = prefix.last();
        lemma_effect_keeps_stamp(run(l, steps.take(j - 1)), s.command, s.issuer, s.fresh);
    }
}

} // verus!
