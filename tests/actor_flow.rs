use coodo_be::{Command, ListActor, Registry, TaskCommand, TaskCommandMeta, TodoList, User, UserHandle};

fn user(id: u128, handle: &str) -> User {
    User::from_parts(id, UserHandle::from_text(handle.to_string()))
}

#[test]
fn first_snapshot_after_join_shows_the_joiner() {
    let mut registry: Registry<()> = Registry::new();
    let list = TodoList::with_identity(11, 1000, vec![]);
    registry.spawn(11, ());
    assert_eq!(registry.join_todo_list(11, 1, 1), Some(None));
    let mut actor = ListActor::new(list);
    let snap = actor
        .on_command(Command::UserJoin(user(1, "u1")).with_issuer(user(1, "u1")), 0, 1001)
        .expect("a join is published");
    assert_eq!(snap.id(), 11);
    assert!(snap.tasks().is_empty());
    assert_eq!(snap.connected_users().len(), 1);
    assert_eq!(snap.connected_users()[0].id(), 1);
}

#[test]
fn create_then_rename_are_published() {
    let mut actor = ListActor::new(TodoList::with_identity(11, 1000, vec![]));
    let u1 = user(1, "u1");
    let snap = actor.on_command(Command::CreateTask.with_issuer(u1.clone()), 500, 1001).unwrap();
    assert_eq!(snap.tasks().len(), 1);
    assert_eq!(snap.tasks()[0].assignee().id(), 1);
    assert!(!snap.tasks()[0].is_done());
    assert_eq!(snap.tasks()[0].name(), "");
    let t = snap.tasks()[0].id();
    let rename = Command::TaskCommand(TaskCommandMeta { task: t, command: TaskCommand::Rename("my task".to_string()) });
    let snap = actor.on_command(rename.with_issuer(u1), 501, 1002).unwrap();
    assert_eq!(snap.tasks()[0].name(), "my task");
    assert_eq!(snap.last_updated_at(), 1002);
}

#[test]
fn missing_task_publishes_nothing() {
    let mut actor = ListActor::new(TodoList::with_identity(11, 1000, vec![]));
    let cmd = Command::TaskCommand(TaskCommandMeta { task: 3, command: TaskCommand::SetDone(true) });
    assert!(actor.on_command(cmd.with_issuer(user(1, "u1")), 0, 2000).is_none());
    assert!(actor.on_tick().is_none());
    assert_eq!(actor.list().last_updated_at(), 1000);
}

#[test]
fn write_behind_stores_latest_and_retries_on_failure() {
    let mut actor = ListActor::new(TodoList::with_identity(11, 1000, vec![]));
    assert!(actor.on_tick().is_none());
    actor.on_command(Command::SetListName("a".to_string()).with_issuer(user(1, "u1")), 0, 1001);
    let (v1, s1) = actor.on_tick().expect("a change is due");
    assert_eq!(v1, 1);
    assert_eq!(s1.name(), "a");
    actor.on_stored(v1, false);
    let (v2, _) = actor.on_tick().expect("a failed store is retried");
    assert_eq!(v2, 1);
    actor.on_command(Command::SetListName("b".to_string()).with_issuer(user(1, "u1")), 0, 1002);
    actor.on_stored(v1, true);
    let (v3, s3) = actor.on_tick().expect("a store of an older version leaves the change due");
    assert_eq!(v3, 2);
    assert_eq!(s3.name(), "b");
    actor.on_stored(v3, true);
    assert!(actor.on_tick().is_none());
}

#[test]
fn close_returns_final_store_only_when_dirty() {
    let mut clean = ListActor::new(TodoList::with_identity(1, 0, vec![]));
    assert!(clean.close().is_none());
    let mut dirty = ListActor::new(TodoList::with_identity(1, 0, vec![]));
    dirty.on_command(Command::CreateTask.with_issuer(user(1, "u1")), 9, 5);
    let (v, s) = dirty.close().expect("final store");
    assert_eq!(v, 1);
    assert_eq!(s.tasks().len(), 1);
}

#[test]
fn snapshot_stamps_are_monotone() {
    let mut actor = ListActor::new(TodoList::with_identity(1, 1000, vec![]));
    let u = user(1, "u1");
    let mut last = actor.list().last_updated_at();
    let times = [1200, 1100, 1300, 900, 1300];
    for (k, now) in times.iter().enumerate() {
        let snap = actor.on_command(Command::CreateTask.with_issuer(u.clone()), k as u128 + 1, *now).unwrap();
        assert!(snap.last_updated_at() >= last);
        last = snap.last_updated_at();
    }
    assert_eq!(last, 1300);
}
