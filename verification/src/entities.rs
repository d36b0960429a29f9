//! The records the application keeps: tasks and workspaces.

pub mod todo;
pub mod workspace;

pub use todo::Todo;
pub use todo::TodoView;
pub use workspace::Workspace;
pub use workspace::WorkspaceView;
