//! What a frame shows, computed from the state and handed to whoever draws.

use crate::app::AppController;
use crate::app::AppView;
use crate::entities::todo::Todo;
use crate::entities::todo::TodoView;
use crate::entities::workspace::Workspace;
use crate::entities::workspace::WorkspaceView;
use crate::keys::Notice;
use crate::keys::Tab;
use crate::modal::Modal;
use crate::modal::ModalView;
use crate::task_store::todo_views;
use crate::workspace_store::workspace_views;
use vstd::prelude::*;

verus! {

/// Which record an open input overlay is asking for.
#[derive(Clone, Copy, Debug, PartialEq, Eq, Structural)]
pub enum OverlayKind {
    NewTask,
    NewWorkspace,
}

/// The figures of the status tab.
#[derive(Clone, Copy, Debug, PartialEq, Eq, Structural)]
pub struct Summary {
    pub tasks: usize,
    pub done: usize,
    pub workspaces: usize,
}

/// The mathematical content of an [`Overlay`].
pub struct OverlayView {
    pub kind: OverlayKind,
    pub text: Seq<char>,
    pub cursor: nat,
}

/// The mathematical content of a [`Screen`].
pub struct ScreenView {
    pub tab: Tab,
    pub rows: Seq<Seq<char>>,
    pub highlighted: Option<nat>,
    pub overlay: Option<OverlayView>,
    pub notice: Notice,
    pub summary: Summary,
}

/// The characters of each of the given strings.
pub open spec fn string_views(strings: Seq<String>) -> Seq<Seq<char>> {
    Seq::new(strings.len(), |i: int| strings[i]@)
}

/// The lines that stand for the given tasks.
pub open spec fn task_labels_of(todos: Seq<TodoView>) -> Seq<Seq<char>> {
    Seq::new(todos.len(), |i: int| todos[i].label())
}

/// The lines that stand for the given workspaces: their titles.
pub open spec fn workspace_labels_of(workspaces: Seq<WorkspaceView>) -> Seq<Seq<char>> {
    Seq::new(workspaces.len(), |i: int| workspaces[i].title)
}

/// How many of the given tasks are done.
pub open spec fn done_count_of(todos: Seq<TodoView>) -> nat
    decreases todos.len(),
{
    if todos.len() == 0 {
        0
    } else {
        done_count_of(todos.drop_last()) + if todos.last().done {
            1nat
        } else {
            0nat
        }
    }
}

/// What an open modal shows.
pub open spec fn overlay_of(kind: OverlayKind, modal: ModalView) -> OverlayView {
    OverlayView { kind, text: modal.buffer.text, cursor: modal.buffer.cursor }
}

impl AppView {
    /// The figures of the status tab.
    pub open spec fn summary(self) -> Summary {
        Summary {
            tasks: self.tasks.items.len() as usize,
            done: done_count_of(self.tasks.items) as usize,
            workspaces: self.workspaces.items.len() as usize,
        }
    }

    /// What a frame shows of this state: the rows of the list that the
    /// current tab shows, with the highlighted one; the overlay, if a modal is
    /// open; the notice; and the figures of the status tab, which has no
    /// rows.
    pub open spec fn screen(self) -> ScreenView {
        ScreenView {
            tab: self.tab,
            rows: match self.tab {
                Tab::Status => Seq::empty(),
                Tab::Inbox => task_labels_of(self.tasks.items),
                Tab::Todos => task_labels_of(self.tasks.items),
                Tab::Workspaces => workspace_labels_of(self.workspaces.items),
            },
            highlighted: match self.tab {
                Tab::Status => None,
                Tab::Inbox => self.tasks.selected,
                Tab::Todos => self.tasks.selected,
                Tab::Workspaces => self.workspaces.selected,
            },
            overlay: if self.todo_modal.editing {
                Some(overlay_of(OverlayKind::NewTask, self.todo_modal))
            } else if self.workspace_modal.editing {
                Some(overlay_of(OverlayKind::NewWorkspace, self.workspace_modal))
            } else {
                None
            },
            notice: self.notice,
            summary: self.summary(),
        }
    }
}

/// What an open modal shows: the text typed so far and the cursor in it.
#[derive(Debug)]
pub struct Overlay {
    pub kind: OverlayKind,
    pub text: String,
    pub cursor: usize,
}

impl View for Overlay {
    type V = OverlayView;

    open spec fn view(&self) -> OverlayView {
        OverlayView { kind: self.kind, text: self.text@, cursor: self.cursor as nat }
    }
}

/// What a frame shows.
#[derive(Debug)]
pub struct Screen {
    pub tab: Tab,
    pub rows: Vec<String>,
    pub highlighted: Option<usize>,
    pub overlay: Option<Overlay>,
    pub notice: Notice,
    pub summary: Summary,
}

impl View for Screen {
    type V = ScreenView;

    open spec fn view(&self) -> ScreenView {
        ScreenView {
            tab: self.tab,
            rows: string_views(self.rows@),
            highlighted: match self.highlighted {
                Some(i) => Some(i as nat),
                None => None,
            },
            overlay: match self.overlay {
                Some(overlay) => Some(overlay@),
                None => None,
            },
            notice: self.notice,
            summary: self.summary,
        }
    }
}

/// The lines that stand for the given tasks, `[X] title` for a task that is
/// done and `[ ] title` for one that is open.
pub fn task_labels(tasks: &Vec<Todo>) -> (rows: Vec<String>)
    ensures
        string_views(rows@) == task_labels_of(todo_views(tasks@)),
{
    let mut rows: Vec<String> = Vec::new();
    let mut i: usize = 0;
    while i < tasks.len()
        invariant
            i <= tasks.len(),
            rows.len() == i,
            forall|j: int| 0 <= j < i ==> (#[trigger] rows[j])@ == tasks[j]@.label(),
        decreases tasks.len() - i,
    {
        rows.push(tasks[i].label());
        i = i + 1;
    }
    assert(string_views(rows@) =~= task_labels_of(todo_views(tasks@)));
    rows
}

/// The lines that stand for the given workspaces: their titles.
pub fn workspace_labels(workspaces: &Vec<Workspace>) -> (rows: Vec<String>)
    ensures
        string_views(rows@) == workspace_labels_of(workspace_views(workspaces@)),
{
    let mut rows: Vec<String> = Vec::new();
    let mut i: usize = 0;
    while i < workspaces.len()
        invariant
            i <= workspaces.len(),
            rows.len() == i,
            forall|j: int| 0 <= j < i ==> (#[trigger] rows[j])@ == workspaces[j]@.title,
        decreases workspaces.len() - i,
    {
        rows.push(workspaces[i].title.clone());
        i = i + 1;
    }
    assert(string_views(rows@) =~= workspace_labels_of(workspace_views(workspaces@)));
    rows
}

/// How many of the given tasks are done.
pub fn done_count(tasks: &Vec<Todo>) -> (count: usize)
    ensures
        count == done_count_of(todo_views(tasks@)),
{
    let ghost views = todo_views(tasks@);
    let mut count: usize = 0;
    let mut i: usize = 0;
    while i < tasks.len()
        invariant
            i <= tasks.len(),
            views == todo_views(tasks@),
            count <= i,
            count == done_count_of(views.subrange(0, i as int)),
        decreases tasks.len() - i,
    {
        assert(views.subrange(0, i + 1).drop_last() == views.subrange(0, i as int));
        if tasks[i].done {
            count = count + 1;
        }
        i = i + 1;
    }
    assert(views.subrange(0, i as int) == views);
    count
}

/// What the given modal shows, if it is open.
pub fn overlay(kind: OverlayKind, modal: &Modal) -> (overlay: Option<Overlay>)
    ensures
        match overlay {
            Some(shown) => modal@.editing && shown@ == overlay_of(kind, modal@),
            None => !modal@.editing,
        },
{
    if modal.is_editing() {
        let editor = modal.editor();
        Some(Overlay { kind, text: editor.text(), cursor: editor.cursor() })
    } else {
        None
    }
}

/// What a frame shows of the given state.
pub fn screen(app: &AppController) -> (screen: Screen)
    ensures
        screen@ == app@.screen(),
{
    let tab = app.tab();
    let tasks = app.tasks().list();
    let workspaces = app.workspaces().list();
    let rows = match tab {
        Tab::Status => {
            let rows: Vec<String> = Vec::new();
            assert(string_views(rows@) =~= Seq::empty());
            rows
        },
        Tab::Inbox => task_labels(tasks),
        Tab::Todos => task_labels(tasks),
        Tab::Workspaces => workspace_labels(workspaces),
    };
    let highlighted = match tab {
        Tab::Status => None,
        Tab::Inbox => app.tasks().selected(),
        Tab::Todos => app.tasks().selected(),
        Tab::Workspaces => app.workspaces().selected(),
    };
    let overlay = match overlay(OverlayKind::NewTask, app.todo_modal()) {
        Some(shown) => Some(shown),
        None => overlay(OverlayKind::NewWorkspace, app.workspace_modal()),
    };
    let summary = Summary {
        tasks: tasks.len(),
        done: done_count(tasks),
        workspaces: workspaces.len(),
    };
    Screen { tab, rows, highlighted, overlay, notice: app.notice(), summary }
}

} // verus!
