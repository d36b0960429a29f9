//! The workspaces of a session, in the order in which they were added.

use crate::entities::workspace::Workspace;
use crate::entities::workspace::WorkspaceView;
use crate::persistence::bytes_of_workspaces;
use crate::persistence::decode_workspaces;
use crate::persistence::encode_workspaces;
use crate::persistence::workspaces_of_bytes;
use crate::persistence::workspaces_of_file;
use crate::persistence::CodecError;
use crate::selectable_list::ListView;
use crate::selectable_list::SelectableList;
use crate::task_store::StoreError;
use vstd::prelude::*;

verus! {

/// The views of the given workspaces, in the same order.
pub open spec fn workspace_views(workspaces: Seq<Workspace>) -> Seq<WorkspaceView> {
    Seq::new(workspaces.len(), |i: int| workspaces[i]@)
}

/// The largest id among the given workspaces, and 0 when there is none.
pub open spec fn max_workspace_id(workspaces: Seq<WorkspaceView>) -> nat
    decreases workspaces.len(),
{
    if workspaces.len() == 0 {
        0
    } else {
        let before = max_workspace_id(workspaces.drop_last());
        if workspaces.last().id > before {
            workspaces.last().id as nat
        } else {
            before
        }
    }
}

/// The id that the next workspace gets: 0 in an empty store, else one more
/// than the largest id in use.
pub open spec fn next_workspace_id(workspaces: Seq<WorkspaceView>) -> nat {
    if workspaces.len() == 0 {
        0
    } else {
        max_workspace_id(workspaces) + 1
    }
}

/// The largest id is at least every id in the list, so the id that a store
/// hands out next is in use by no workspace of it.
pub proof fn law_next_workspace_id_is_fresh(workspaces: Seq<WorkspaceView>)
    ensures
        forall|i: int|
            0 <= i < workspaces.len() ==> (#[trigger] workspaces[i]).id < next_workspace_id(
                workspaces,
            ),
    decreases workspaces.len(),
{
    if workspaces.len() > 0 {
        let front = workspaces.drop_last();
        law_next_workspace_id_is_fresh(front);
        assert forall|i: int| 0 <= i < workspaces.len() implies (#[trigger] workspaces[i]).id
            < next_workspace_id(workspaces) by {
            if i < front.len() {
                assert(front[i] == workspaces[i]);
            }
        }
    }
}

/// The workspaces of a session together with the selection of their list.
///
/// A workspace made by the store gets its id the way a task does, one more
/// than the largest id in use, so the workspaces of a store that was filled
/// through `create` alone have distinct ids.
pub struct WorkspaceStore {
    list: SelectableList<Workspace>,
}

impl View for WorkspaceStore {
    type V = ListView<WorkspaceView>;

    closed spec fn view(&self) -> ListView<WorkspaceView> {
        ListView { items: workspace_views(self.list@.items), selected: self.list@.selected }
    }
}

impl WorkspaceStore {
    /// The selection, if set, names a workspace of the store.
    pub open spec fn wf(&self) -> bool {
        self@.wf()
    }

    /// A store without workspaces.
    pub fn new() -> (store: WorkspaceStore)
        ensures
            store.wf(),
            store@.items == Seq::<WorkspaceView>::empty(),
            store@.selected is None,
    {
        WorkspaceStore { list: SelectableList::new() }
    }

    /// A store of the given workspaces, the first of them selected.
    pub fn from_workspaces(workspaces: Vec<Workspace>) -> (store: WorkspaceStore)
        ensures
            store.wf(),
            store@.items == workspace_views(workspaces@),
            store@.selected == if workspaces@.len() == 0 { None::<nat> } else { Some(0nat) },
    {
        WorkspaceStore { list: SelectableList::from_vec(workspaces) }
    }

    /// The store that the given bytes hold, the first workspace selected.
    /// Bytes that hold no list of workspaces give an empty store: what a
    /// damaged file held is dropped without a report.
    pub fn decode(bytes: &[u8]) -> (store: WorkspaceStore)
        ensures
            store.wf(),
            store@.items == workspaces_of_bytes(bytes@),
            store@.selected == if workspaces_of_bytes(bytes@).len() == 0 {
                None::<nat>
            } else {
                Some(0nat)
            },
    {
        WorkspaceStore::from_workspaces(decode_workspaces(bytes))
    }

    /// The store for the start of a session, given what the file held, with
    /// `None` for a file that could not be read. A missing file and a
    /// damaged one both give an empty store.
    pub fn load(contents: Option<&[u8]>) -> (store: WorkspaceStore)
        ensures
            store.wf(),
            store@ == ListView::starting(
                workspaces_of_file(
                    match contents {
                        Some(bytes) => Some(bytes@),
                        None => None,
                    },
                ),
            ),
    {
        match contents {
            Some(bytes) => WorkspaceStore::decode(bytes),
            None => WorkspaceStore::new(),
        }
    }

    /// The workspaces as bytes for the file: the bytes that the encoder
    /// makes of them, and the error exactly where the encoder gives up on
    /// them. The selection is not written. `decode` finds the same workspaces
    /// in the bytes, in the same order.
    pub fn encode(&self) -> (r: Result<Vec<u8>, CodecError>)
        ensures
            match r {
                Ok(bytes) => {
                    &&& bytes_of_workspaces(self@.items) == Some(bytes@)
                    &&& workspaces_of_bytes(bytes@) == self@.items
                },
                Err(e) => {
                    &&& e == CodecError::Encode
                    &&& bytes_of_workspaces(self@.items) is None
                },
            },
    {
        encode_workspaces(self.list.items())
    }

    /// The workspaces in the order in which they were added.
    pub fn list(&self) -> (workspaces: &Vec<Workspace>)
        ensures
            workspace_views(workspaces@) == self@.items,
    {
        self.list.items()
    }

    /// The number of workspaces.
    pub fn len(&self) -> (n: usize)
        ensures
            n == self@.items.len(),
    {
        self.list.len()
    }

    /// The index of the selected workspace, if any.
    pub fn selected(&self) -> (index: Option<usize>)
        ensures
            index is Some == self@.selected is Some,
            index matches Some(i) ==> self@.selected == Some(i as nat),
    {
        self.list.selected()
    }

    /// The id for the next workspace, or `None` when the largest id in use
    /// leaves no room for a larger one.
    pub fn next_id(&self) -> (id: Option<usize>)
        ensures
            id == if next_workspace_id(self@.items) <= usize::MAX {
                Some(next_workspace_id(self@.items) as usize)
            } else {
                None
            },
    {
        let workspaces = self.list.items();
        if workspaces.len() == 0 {
            return Some(0);
        }
        let ghost views = workspace_views(workspaces@);
        let mut max_id: usize = 0;
        let mut i: usize = 0;
        while i < workspaces.len()
            invariant
                i <= workspaces.len(),
                views == workspace_views(workspaces@),
                max_id == max_workspace_id(views.subrange(0, i as int)),
            decreases workspaces.len() - i,
        {
            assert(views.subrange(0, i + 1).drop_last() == views.subrange(0, i as int));
            if workspaces[i].id > max_id {
                max_id = workspaces[i].id;
            }
            i = i + 1;
        }
        assert(views.subrange(0, i as int) == views);
        if max_id == usize::MAX {
            None
        } else {
            Some(max_id + 1)
        }
    }

    /// Adds a workspace with the given title under the next id and returns
    /// that id. The selection does not move. When no id is left the store
    /// stays as it is.
    pub fn create(&mut self, title: String) -> (r: Result<usize, StoreError>)
        requires
            old(self).wf(),
        ensures
            final(self).wf(),
            match r {
                Ok(id) => {
                    &&& id == next_workspace_id(old(self)@.items)
                    &&& final(self)@ == old(self)@.push(
                        WorkspaceView { id, title: title@ },
                    )
                },
                Err(e) => {
                    &&& e == StoreError::IdsExhausted
                    &&& next_workspace_id(old(self)@.items) > usize::MAX
                    &&& final(self)@ == old(self)@
                },
            },
    {
        match self.next_id() {
            None => Err(StoreError::IdsExhausted),
            Some(id) => {
                let workspace = Workspace::with_id(id, title);
                self.list.push(workspace);
                assert(self@.items =~= old(self)@.items.push(workspace@));
                Ok(id)
            },
        }
    }

    /// Removes the workspace at `index` and says whether there was one. An
    /// index past the end changes nothing. The selection keeps its index
    /// unless it would point past the end of the shorter list.
    pub fn delete(&mut self, index: usize) -> (changed: bool)
        requires
            old(self).wf(),
        ensures
            final(self).wf(),
            changed == (index < old(self)@.items.len()),
            final(self)@ == old(self)@.remove_at(index as nat),
    {
        let removed = self.list.remove_at(index);
        assert(self@.items =~= old(self)@.remove_at(index as nat).items);
        removed.is_some()
    }

    /// Moves the selection one workspace forward, wrapping at the end.
    pub fn select_next(&mut self)
        requires
            old(self).wf(),
        ensures
            final(self).wf(),
            final(self)@ == old(self)@.select_next(),
    {
        self.list.select_next();
    }

    /// Moves the selection one workspace back, wrapping at the start.
    pub fn select_previous(&mut self)
        requires
            old(self).wf(),
        ensures
            final(self).wf(),
            final(self)@ == old(self)@.select_previous(),
    {
        self.list.select_previous();
    }
}

} // verus!
