use coodo_be::{on_session_event, on_session_open, Command, SessionAction, SessionEvent, TaskCommand, TaskCommandMeta, User, UserHandle};

fn user(id: u128, handle: &str) -> User {
    User::from_parts(id, UserHandle::from_text(handle.to_string()))
}

#[test]
fn opening_sends_a_join_for_the_user() {
    let c = on_session_open(&user(4, "u4"));
    assert_eq!(c.issuer.id(), 4);
    assert!(matches!(c.command, Command::UserJoin(ref u) if u.id() == 4));
}

#[test]
fn client_commands_are_forwarded_as_the_sessions_user() {
    let cmd = Command::TaskCommand(TaskCommandMeta { task: 1, command: TaskCommand::SetDone(true) });
    match on_session_event(&user(4, "u4"), SessionEvent::Frame(cmd)) {
        SessionAction::Forward(c) => {
            assert_eq!(c.issuer.id(), 4);
            assert!(matches!(c.command, Command::TaskCommand(ref m) if m.task == 1));
        }
        _ => panic!("expected the command to be forwarded"),
    }
    assert!(matches!(
        on_session_event(&user(4, "u4"), SessionEvent::Frame(Command::CreateTask)),
        SessionAction::Forward(_)
    ));
}

#[test]
fn joins_and_leaves_from_the_wire_are_ignored() {
    let u = user(4, "u4");
    assert!(matches!(on_session_event(&u, SessionEvent::Frame(Command::UserJoin(user(9, "x")))), SessionAction::Ignore));
    assert!(matches!(on_session_event(&u, SessionEvent::Frame(Command::UserLeave(user(4, "u4")))), SessionAction::Ignore));
    assert!(matches!(on_session_event(&u, SessionEvent::Malformed), SessionAction::Ignore));
}

#[test]
fn snapshot_changes_are_sent() {
    assert!(matches!(on_session_event(&user(4, "u4"), SessionEvent::SnapshotChanged), SessionAction::SendSnapshot));
}

#[test]
fn evicted_session_closes_without_leaving() {
    assert!(matches!(
        on_session_event(&user(4, "u4"), SessionEvent::Evicted),
        SessionAction::Close { leave: None }
    ));
}

#[test]
fn closed_session_leaves_as_its_user() {
    for event in [SessionEvent::ClientClosed, SessionEvent::StreamEnded] {
        match on_session_event(&user(4, "u4"), event) {
            SessionAction::Close { leave: Some(c) } => {
                assert_eq!(c.issuer.id(), 4);
                assert!(matches!(c.command, Command::UserLeave(ref u) if u.id() == 4));
            }
            _ => panic!("expected a close with a leave"),
        }
    }
}
