//! Process identity, spawning and linking for a typed actor runtime.
//!
//! The host runtime that actually creates, links and schedules processes is
//! reached only through values that this library hands out: creation requests,
//! supervisor actions and tagged replies. Everything that decides what those
//! values hold is verified here.

pub mod mailbox;
pub mod process;
pub mod supervisor;
pub mod tag;

pub use mailbox::{make_request, reply_to, Envelope, Reply, ReplyBuffer};
pub use process::{
    sleep_millis, spawn, spawn_config, spawn_link, spawn_link_config, ExitReason, IntoProcess, IntoProcessLink,
    ModuleRef, Notification, ProcessConfig, ProcessId, SpawnError, SpawnRequest,
};
pub use supervisor::{Child, ChildState, Supervisor, SupervisorAction};
pub use tag::{Tag, TagGenerator};
