//! A workspace, which is a named tag.

use vstd::prelude::*;

verus! {

/// The id that [`Workspace::new`] gives to every workspace it builds.
pub const PLACEHOLDER_WORKSPACE_ID: usize = 10;

/// The mathematical content of a [`Workspace`].
pub struct WorkspaceView {
    pub id: usize,
    pub title: Seq<char>,
}

/// A workspace: an id and a title.
#[derive(Debug)]
pub struct Workspace {
    pub id: usize,
    pub title: String,
}

impl View for Workspace {
    type V = WorkspaceView;

    open spec fn view(&self) -> WorkspaceView {
        WorkspaceView { id: self.id, title: self.title@ }
    }
}

impl Workspace {
    /// A workspace outside any store. It carries the placeholder id, so two
    /// workspaces built this way share their id; a store hands out distinct
    /// ids through [`Workspace::with_id`].
    pub fn new(title: String) -> (workspace: Workspace)
        ensures
            workspace@ == (WorkspaceView { id: PLACEHOLDER_WORKSPACE_ID, title: title@ }),
    {
        Self { id: PLACEHOLDER_WORKSPACE_ID, title }
    }

    /// A workspace with the given id.
    pub fn with_id(id: usize, title: String) -> (workspace: Workspace)
        ensures
            workspace@ == (WorkspaceView { id, title: title@ }),
    {
        Self { id, title }
    }
}

} // verus!
