//! Workspace and monitor navigation for a tiling compositor.
//!
//! The library holds the decisions of the daemon: the workspace identifier
//! codec, the parsers of the compositor's event lines and of client commands,
//! the queries' response handling and the dispatcher's state machine.
//! Sockets, threads and the message queue live in the application around it.
pub mod command;
pub mod compositor;
pub mod decimal;
pub mod dispatch;
pub mod event;
pub mod message;
pub mod text;
pub mod workspace;

pub use message::Message;
pub use workspace::Workspace;
