use coodo_be::{Applicable, Command, TaskCommand, TaskCommandMeta, TodoList, User, UserHandle};

fn user(id: u128, handle: &str) -> User {
    User::from_parts(id, UserHandle::from_text(handle.to_string()))
}

fn task_cmd(task: u128, command: TaskCommand) -> Command {
    Command::TaskCommand(TaskCommandMeta { task, command })
}

#[test]
fn create_task_appends_task_assigned_to_issuer() {
    let mut list = TodoList::with_identity(1, 0, vec![]);
    assert!(Command::CreateTask.apply(&mut list, user(1, "u1"), 100));
    assert_eq!(list.tasks().len(), 1);
    let t = &list.tasks()[0];
    assert_eq!(t.id(), 100);
    assert_eq!(t.assignee().id(), 1);
    assert!(!t.is_done());
    assert_eq!(t.name(), "");
}

#[test]
fn create_task_with_used_id_is_a_no_op() {
    let mut list = TodoList::with_identity(1, 0, vec![]);
    assert!(Command::CreateTask.apply(&mut list, user(1, "u1"), 100));
    assert!(!Command::CreateTask.apply(&mut list, user(1, "u1"), 100));
    assert_eq!(list.tasks().len(), 1);
}

#[test]
fn rename_task_sets_name_and_keeps_assignee() {
    let mut list = TodoList::with_identity(1, 0, vec![]);
    Command::CreateTask.apply(&mut list, user(1, "u1"), 100);
    assert!(task_cmd(100, TaskCommand::Rename("my task".to_string())).apply(&mut list, user(2, "u2"), 0));
    assert_eq!(list.tasks()[0].name(), "my task");
    assert_eq!(list.tasks()[0].assignee().id(), 1);
}

#[test]
fn set_done_claims_the_task() {
    let mut list = TodoList::with_identity(1, 0, vec![]);
    Command::CreateTask.apply(&mut list, user(1, "u1"), 100);
    assert!(task_cmd(100, TaskCommand::SetDone(true)).apply(&mut list, user(2, "u2"), 0));
    assert!(list.tasks()[0].is_done());
    assert_eq!(list.tasks()[0].assignee().id(), 2);
}

#[test]
fn set_assignee_assigns_given_user() {
    let mut list = TodoList::with_identity(1, 0, vec![]);
    Command::CreateTask.apply(&mut list, user(1, "u1"), 100);
    assert!(task_cmd(100, TaskCommand::SetAssignee(user(3, "u3"))).apply(&mut list, user(2, "u2"), 0));
    assert_eq!(list.tasks()[0].assignee().id(), 3);
    assert!(!list.tasks()[0].is_done());
}

#[test]
fn task_command_on_missing_task_is_a_no_op() {
    let mut list = TodoList::with_identity(1, 0, vec![]);
    Command::CreateTask.apply(&mut list, user(1, "u1"), 100);
    assert!(!task_cmd(555, TaskCommand::SetDone(true)).apply(&mut list, user(2, "u2"), 0));
    assert!(!list.tasks()[0].is_done());
    assert_eq!(list.tasks()[0].assignee().id(), 1);
}

#[test]
fn join_and_leave_commands() {
    let mut list = TodoList::with_identity(1, 0, vec![]);
    assert!(Command::UserJoin(user(1, "u1")).apply(&mut list, user(1, "u1"), 0));
    assert!(Command::UserJoin(user(1, "u1")).apply(&mut list, user(1, "u1"), 0));
    assert!(Command::UserJoin(user(2, "u2")).apply(&mut list, user(2, "u2"), 0));
    assert_eq!(list.connected_users().len(), 2);
    assert!(Command::UserLeave(user(1, "u1")).apply(&mut list, user(1, "u1"), 0));
    assert_eq!(list.connected_users().len(), 1);
    assert_eq!(list.connected_users()[0].id(), 2);
}

#[test]
fn set_list_name_twice_equals_once() {
    let mut once = TodoList::with_identity(1, 0, vec![]);
    let mut twice = TodoList::with_identity(1, 0, vec![]);
    Command::SetListName("x".to_string()).apply(&mut once, user(1, "u1"), 0);
    Command::SetListName("x".to_string()).apply(&mut twice, user(1, "u1"), 0);
    Command::SetListName("x".to_string()).apply(&mut twice, user(2, "u2"), 0);
    assert_eq!(once.name(), "x");
    assert_eq!(twice.name(), once.name());
    assert_eq!(twice.tasks().len(), once.tasks().len());
    assert_eq!(twice.last_updated_at(), once.last_updated_at());
}

#[test]
fn done_then_undone_restores_and_reassigns() {
    let mut list = TodoList::with_identity(1, 0, vec![]);
    Command::CreateTask.apply(&mut list, user(1, "u1"), 100);
    Command::CreateTask.apply(&mut list, user(1, "u1"), 200);
    task_cmd(100, TaskCommand::SetDone(true)).apply(&mut list, user(2, "u2"), 0);
    task_cmd(100, TaskCommand::SetDone(false)).apply(&mut list, user(3, "u3"), 0);
    assert!(!list.tasks()[0].is_done());
    assert_eq!(list.tasks()[0].assignee().id(), 3);
    assert_eq!(list.tasks()[1].assignee().id(), 1);
}

#[test]
fn task_count_equals_create_commands() {
    let mut list = TodoList::with_identity(1, 0, vec![]);
    let u = user(1, "u1");
    let mut fresh: u128 = 1;
    let cmds = vec![
        Command::CreateTask,
        Command::SetListName("n".to_string()),
        Command::CreateTask,
        Command::UserJoin(user(1, "u1")),
        task_cmd(1, TaskCommand::SetDone(true)),
        Command::CreateTask,
    ];
    for c in cmds {
        c.apply(&mut list, u.clone(), fresh);
        fresh += 1;
    }
    assert_eq!(list.tasks().len(), 3);
}

#[test]
fn only_server_issues_join_and_leave() {
    assert!(Command::CreateTask.is_client_command());
    assert!(Command::SetListName("a".to_string()).is_client_command());
    assert!(task_cmd(1, TaskCommand::SetDone(true)).is_client_command());
    assert!(!Command::UserJoin(user(1, "a")).is_client_command());
    assert!(!Command::UserLeave(user(1, "a")).is_client_command());
}

#[test]
fn with_issuer_pairs_command_and_user() {
    let c = Command::CreateTask.with_issuer(user(8, "h"));
    assert_eq!(c.issuer.id(), 8);
    assert!(matches!(c.command, Command::CreateTask));
}
