//! Live-collaboration engine of a shared todo-list service: the list model and
//! its commands, the per-list actor and user table, the registry of live lists
//! and the per-session membership index.

pub mod actor;
pub mod command;
pub mod connection;
pub mod handle;
pub mod list;
pub mod membership;
pub mod registry;
pub mod settings;
pub mod sources;
pub mod user;

pub use actor::ListActor;
pub use connection::{on_session_event, on_session_open, SessionAction, SessionEvent};
pub use command::{Applicable, Command, TaskCommand, TaskCommandMeta, TodoCommand};
pub use handle::TodoListHandle;
pub use list::{TodoList, TodoListInfo, TodoTask};
pub use membership::{refreshed_info, SessionMembership};
pub use registry::{LiveList, Registry};
pub use settings::{AppSettings, Environment, RedisSettings, Settings, TodoHandlerSettings};
pub use user::{User, UserHandle, UserHandleGenerator};
