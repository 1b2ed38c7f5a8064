use crate::command::{Command, TodoCommand};
use crate::user::User;
use vstd::prelude::*;

verus! {

/// What a client connection to a live list waits on.
pub enum SessionEvent {
    /// A frame that decoded to a command.
    Frame(Command),
    /// A frame that did not decode.
    Malformed,
    /// The client sent a close frame.
    ClientClosed,
    /// The inbound stream or the snapshot slot ended.
    StreamEnded,
    /// A new snapshot of the list was published.
    SnapshotChanged,
    /// A newer session of the same user took over.
    Evicted,
}

/// What the connection does next.
pub enum SessionAction {
    /// Hand the command to the list's actor.
    Forward(TodoCommand),
    /// Do nothing.
    Ignore,
    /// Send the latest snapshot to the client.
    SendSnapshot,
    /// Close the connection. Where `leave` holds a command, send it to the
    /// actor and leave the list; else return at once.
    Close { leave: Option<TodoCommand> },
}

/// The command a connection sends first: the user joins the list.
pub fn on_session_open(user: &User) -> (c: TodoCommand)
    ensures
        c.issuer == *user,
        c.command == Command::UserJoin(*user),
{
    Command::UserJoin(user.clone()).with_issuer(user.clone())
}

/// The next step of the connection of `user`. Commands are always issued on
/// behalf of the connection's own user; joins and leaves from the client are
/// ignored. An evicted connection closes without leaving: the newer session
/// owns the user's presence. A connection that ends otherwise leaves.
pub fn on_session_event(user: &User, event: SessionEvent) -> (a: SessionAction)
    ensures
        event is Evicted ==> a == (SessionAction::Close { leave: None }),
        (event is ClientClosed || event is StreamEnded) ==> (a matches SessionAction::Close {
            leave: Some(c),
        } && c.issuer == *user && c.command == Command::UserLeave(*user)),
        event is Malformed ==> a is Ignore,
        event is SnapshotChanged ==> a is SendSnapshot,
        forall|cmd: Command|
            event == SessionEvent::Frame(cmd) ==> if cmd.is_client_command_spec() {
                a == SessionAction::Forward(TodoCommand { issuer: *user, command: cmd })
            } else {
                a is Ignore
            },
{
    match event {
        SessionEvent::Frame(cmd) => {
            if cmd.is_client_command() {
                SessionAction::Forward(cmd.with_issuer(user.clone()))
            } else {
                SessionAction::Ignore
            }
        },
        SessionEvent::Malformed => SessionAction::Ignore,
        SessionEvent::ClientClosed | SessionEvent::StreamEnded => SessionAction::Close {
            leave: Some(Command::UserLeave(user.clone()).with_issuer(user.clone())),
        },
        SessionEvent::SnapshotChanged => SessionAction::SendSnapshot,
        SessionEvent::Evicted => SessionAction::Close { leave: None },
    }
}

} // verus!
