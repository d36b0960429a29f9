//! The controller: one state for the whole screen, and one transition per
//! key press.

use crate::clock::now_millis;
use crate::entities::todo::TodoView;
use crate::entities::workspace::WorkspaceView;
use crate::keys::command_for;
use crate::keys::command_of;
use crate::keys::Command;
use crate::keys::Effect;
use crate::keys::Key;
use crate::keys::Notice;
use crate::keys::Tab;
use crate::modal::Modal;
use crate::modal::ModalEvent;
use crate::modal::ModalOutcome;
use crate::modal::ModalView;
use crate::persistence::todos_of_bytes;
use crate::persistence::todos_of_file;
use crate::persistence::workspaces_of_file;
use crate::selectable_list::ListView;
use crate::task_store::new_task;
use crate::task_store::next_task_id;
use crate::task_store::toggled_at;
use crate::task_store::TaskStore;
use crate::text_editor::EditBuffer;
use crate::workspace_store::next_workspace_id;
use crate::workspace_store::WorkspaceStore;
use vstd::prelude::*;

verus! {

/// The mathematical content of an [`AppController`].
pub struct AppView {
    pub tab: Tab,
    pub tasks: ListView<TodoView>,
    pub workspaces: ListView<WorkspaceView>,
    pub todo_modal: ModalView,
    pub workspace_modal: ModalView,
    pub notice: Notice,
}

impl AppView {
    /// Every part is well formed, and at most one modal is open.
    pub open spec fn wf(self) -> bool {
        &&& self.tasks.wf()
        &&& self.workspaces.wf()
        &&& self.todo_modal.wf()
        &&& self.workspace_modal.wf()
        &&& !(self.todo_modal.editing && self.workspace_modal.editing)
    }

    /// The state at the start of a session: the task list is shown on the
    /// Todos tab, where every list command works from the first key on; no
    /// modal is open, and nothing is reported.
    pub open spec fn initial(
        tasks: ListView<TodoView>,
        workspaces: ListView<WorkspaceView>,
    ) -> AppView {
        AppView {
            tab: Tab::Todos,
            tasks,
            workspaces,
            todo_modal: ModalView::hidden(),
            workspace_modal: ModalView::hidden(),
            notice: Notice::Quiet,
        }
    }

    /// The state at the start of a session that found the given tasks and
    /// workspaces: the first item of each list is selected.
    pub open spec fn started(tasks: Seq<TodoView>, workspaces: Seq<WorkspaceView>) -> AppView {
        AppView::initial(ListView::starting(tasks), ListView::starting(workspaces))
    }

    /// Whether a modal holds the keyboard.
    pub open spec fn modal_open(self) -> bool {
        self.todo_modal.editing || self.workspace_modal.editing
    }

    /// Enter in the task modal: the modal closes, and a task with the typed
    /// title and no further text joins the store, stamped `now`. Where no id
    /// is left, the store stays as it is and the user is told.
    pub open spec fn submit_task(self, title: Seq<char>, now: i64) -> (AppView, Effect) {
        let closed = AppView { todo_modal: ModalView::hidden(), ..self };
        if next_task_id(self.tasks.items) <= usize::MAX {
            (
                AppView {
                    tasks: self.tasks.push(
                        new_task(self.tasks.items, title, Seq::empty(), now, now),
                    ),
                    ..closed
                },
                Effect::SaveTasks,
            )
        } else {
            (AppView { notice: Notice::IdsExhausted, ..closed }, Effect::Redraw)
        }
    }

    /// Enter in the workspace modal: the modal closes, and a workspace with
    /// the typed title joins the store. Where no id is left, the store stays
    /// as it is and the user is told.
    pub open spec fn submit_workspace(self, title: Seq<char>) -> (AppView, Effect) {
        let closed = AppView { workspace_modal: ModalView::hidden(), ..self };
        if next_workspace_id(self.workspaces.items) <= usize::MAX {
            (
                AppView {
                    workspaces: self.workspaces.push(
                        WorkspaceView {
                            id: next_workspace_id(self.workspaces.items) as usize,
                            title,
                        },
                    ),
                    ..closed
                },
                Effect::SaveWorkspaces,
            )
        } else {
            (AppView { notice: Notice::IdsExhausted, ..closed }, Effect::Redraw)
        }
    }

    /// A key press while the task modal is open.
    pub open spec fn task_modal_key(self, key: Key, now: i64) -> (AppView, Effect) {
        match self.todo_modal.event_of(key) {
            ModalEvent::Submitted(title) => self.submit_task(title, now),
            _ => (AppView { todo_modal: self.todo_modal.after_key(key), ..self }, Effect::Redraw),
        }
    }

    /// A key press while the workspace modal is open.
    pub open spec fn workspace_modal_key(self, key: Key) -> (AppView, Effect) {
        match self.workspace_modal.event_of(key) {
            ModalEvent::Submitted(title) => self.submit_workspace(title),
            _ => (
                AppView { workspace_modal: self.workspace_modal.after_key(key), ..self },
                Effect::Redraw,
            ),
        }
    }

    /// A list command on a tab that shows the tasks. The space bar toggles
    /// on the Todos tab only. Deleting and toggling ask for a save when they
    /// changed a task.
    pub open spec fn task_command(self, command: Command) -> (AppView, Effect) {
        match command {
            Command::OpenModal => (
                AppView { todo_modal: self.todo_modal.opened(), ..self },
                Effect::Redraw,
            ),
            Command::SelectNext => (
                AppView { tasks: self.tasks.select_next(), ..self },
                Effect::Redraw,
            ),
            Command::SelectPrevious => (
                AppView { tasks: self.tasks.select_previous(), ..self },
                Effect::Redraw,
            ),
            Command::DeleteSelected => match self.tasks.selected {
                Some(i) if i < self.tasks.items.len() => (
                    AppView { tasks: self.tasks.remove_at(i), ..self },
                    Effect::SaveTasks,
                ),
                _ => (self, Effect::Redraw),
            },
            Command::ToggleSelected => match self.tasks.selected {
                Some(i) if i < self.tasks.items.len() && self.tab == Tab::Todos => (
                    AppView { tasks: toggled_at(self.tasks, i), ..self },
                    Effect::SaveTasks,
                ),
                _ => (self, Effect::Redraw),
            },
            _ => (self, Effect::Redraw),
        }
    }

    /// A list command on the workspaces tab. Deleting asks for a save when
    /// it removed a workspace.
    pub open spec fn workspace_command(self, command: Command) -> (AppView, Effect) {
        match command {
            Command::OpenModal => (
                AppView { workspace_modal: self.workspace_modal.opened(), ..self },
                Effect::Redraw,
            ),
            Command::SelectNext => (
                AppView { workspaces: self.workspaces.select_next(), ..self },
                Effect::Redraw,
            ),
            Command::SelectPrevious => (
                AppView { workspaces: self.workspaces.select_previous(), ..self },
                Effect::Redraw,
            ),
            Command::DeleteSelected => match self.workspaces.selected {
                Some(i) if i < self.workspaces.items.len() => (
                    AppView { workspaces: self.workspaces.remove_at(i), ..self },
                    Effect::SaveWorkspaces,
                ),
                _ => (self, Effect::Redraw),
            },
            _ => (self, Effect::Redraw),
        }
    }

    /// A command while no modal is open: the global commands first, then
    /// the commands of the list that the current tab shows.
    pub open spec fn command(self, command: Command) -> (AppView, Effect) {
        match command {
            Command::Quit => (self, Effect::Quit),
            Command::NextTab => (AppView { tab: self.tab.following(), ..self }, Effect::Redraw),
            Command::GoTo(tab) => (AppView { tab, ..self }, Effect::Redraw),
            _ => match self.tab {
                Tab::Status => (self, Effect::Redraw),
                Tab::Inbox => self.task_command(command),
                Tab::Todos => self.task_command(command),
                Tab::Workspaces => self.workspace_command(command),
            },
        }
    }

    /// The whole transition for one key press at time `now`. A pending
    /// notice is dropped first. Then an open modal gets the key and nothing
    /// else does; without one, the key is looked up in the key bindings.
    pub open spec fn step(self, key: Key, now: i64) -> (AppView, Effect) {
        let quiet = AppView { notice: Notice::Quiet, ..self };
        if quiet.todo_modal.editing {
            quiet.task_modal_key(key, now)
        } else if quiet.workspace_modal.editing {
            quiet.workspace_modal_key(key)
        } else {
            quiet.command(command_of(key))
        }
    }
}

/// The state after any number of character keys, typed in order.
pub open spec fn after_typing(app: AppView, text: Seq<char>, now: i64) -> AppView
    decreases text.len(),
{
    if text.len() == 0 {
        app
    } else {
        after_typing(app, text.drop_last(), now).step(Key::Char(text.last()), now).0
    }
}

/// Every key press leads from a well-formed state to a well-formed state:
/// the selections stay inside their lists, the cursors inside their texts,
/// and no two modals are open at once.
pub proof fn law_step_keeps_well_formed(app: AppView, key: Key, now: i64)
    requires
        app.wf(),
    ensures
        app.step(key, now).0.wf(),
{
}

/// While a modal is open it takes every key: no key quits, changes the tab,
/// moves a selection, or changes a store, except that Enter in the modal
/// adds the one record that was typed.
pub proof fn law_open_modal_takes_every_key(app: AppView, key: Key, now: i64)
    requires
        app.wf(),
        app.modal_open(),
    ensures
        app.step(key, now).1 != Effect::Quit,
        app.step(key, now).0.tab == app.tab,
        app.step(key, now).0.tasks.selected == app.tasks.selected,
        app.step(key, now).0.workspaces.selected == app.workspaces.selected,
        key != Key::Enter ==> app.step(key, now).0.tasks == app.tasks,
        key != Key::Enter ==> app.step(key, now).0.workspaces == app.workspaces,
        key != Key::Enter ==> app.step(key, now).1 == Effect::Redraw,
{
}

/// Typing into the open task modal puts the characters at the end of its
/// text, in order, and changes nothing else but the notice, which goes.
proof fn lemma_typing_fills_task_modal(app: AppView, text: Seq<char>, now: i64)
    requires
        app.wf(),
        app.todo_modal.editing,
        app.todo_modal.buffer.cursor == app.todo_modal.buffer.text.len(),
        text.len() > 0,
    ensures
        after_typing(app, text, now) == (AppView {
            todo_modal: ModalView {
                editing: true,
                buffer: EditBuffer {
                    text: app.todo_modal.buffer.text + text,
                    cursor: app.todo_modal.buffer.cursor + text.len(),
                },
            },
            notice: Notice::Quiet,
            ..app
        }),
    decreases text.len(),
{
    let front = text.drop_last();
    let typed = app.todo_modal.buffer.text + text;
    if front.len() > 0 {
        lemma_typing_fills_task_modal(app, front, now);
    }
    let before = after_typing(app, front, now);
    assert(before.todo_modal.buffer.text == app.todo_modal.buffer.text + front);
    assert(before.todo_modal.buffer.insert(text.last()).text =~= typed);
}

/// On a tab that shows the tasks, with no modal open: `n`, then any title
/// typed character by character, then Enter adds one open task with that
/// title and the next id to the end of the store, asks for a save, and
/// leaves the modal closed with an empty buffer. This holds unless the ids
/// are used up.
pub proof fn law_typed_title_becomes_task(app: AppView, title: Seq<char>, now: i64)
    requires
        app.wf(),
        !app.modal_open(),
        app.tab.shows_tasks(),
        next_task_id(app.tasks.items) <= usize::MAX,
    ensures
        ({
            let opened = app.step(Key::Char('n'), now).0;
            let typed = after_typing(opened, title, now);
            let (submitted, effect) = typed.step(Key::Enter, now);
            &&& effect == Effect::SaveTasks
            &&& submitted.todo_modal == ModalView::hidden()
            &&& submitted.tasks == app.tasks.push(
                TodoView {
                    id: next_task_id(app.tasks.items) as usize,
                    title,
                    content: Seq::empty(),
                    done: false,
                    created_at: now,
                    updated_at: now,
                },
            )
            &&& submitted.workspaces == app.workspaces
            &&& submitted.tab == app.tab
        }),
{
    let opened = app.step(Key::Char('n'), now).0;
    assert(opened.todo_modal == ModalView { editing: true, buffer: EditBuffer::empty() });
    if title.len() > 0 {
        lemma_typing_fills_task_modal(opened, title, now);
        assert(Seq::<char>::empty() + title =~= title);
    }
}

/// A toggle survives a restart. On the Todos tab, with a task selected and
/// no modal open, the space bar flips the mark of that task, leaves every
/// other task as it is, and asks for a save; `q` then quits without a
/// further change. A later session that starts from bytes in which these
/// tasks are found, as they are in the bytes that `TaskStore::encode`
/// returns for them, shows the same tasks on the Todos tab, that one with
/// its mark flipped.
pub proof fn law_toggle_survives_restart(
    app: AppView,
    index: nat,
    now: i64,
    bytes: Seq<u8>,
    workspaces: Seq<WorkspaceView>,
)
    requires
        app.wf(),
        !app.modal_open(),
        app.tab == Tab::Todos,
        app.tasks.selected == Some(index),
    ensures
        ({
            let (toggled, effect) = app.step(Key::Char(' '), now);
            let (left, last) = toggled.step(Key::Char('q'), now);
            let next = AppView::started(todos_of_file(Some(bytes)), workspaces);
            &&& effect == Effect::SaveTasks
            &&& last == Effect::Quit
            &&& left.tasks == toggled.tasks
            &&& toggled.tasks.items == app.tasks.items.update(
                index as int,
                app.tasks.items[index as int].toggled(),
            )
            &&& todos_of_bytes(bytes) == toggled.tasks.items ==> {
                &&& next.tab == Tab::Todos
                &&& next.tasks.items.len() == app.tasks.items.len()
                &&& next.tasks.items[index as int] == app.tasks.items[index as int].toggled()
                &&& forall|j: int|
                    0 <= j < app.tasks.items.len() && j != index ==> next.tasks.items[j]
                        == app.tasks.items[j]
            }
        }),
{
}

/// The state of the whole screen: the current tab, the two stores with
/// their selections, the two input overlays, and a notice for the user.
pub struct AppController {
    tab: Tab,
    tasks: TaskStore,
    workspaces: WorkspaceStore,
    todo_modal: Modal,
    workspace_modal: Modal,
    notice: Notice,
}

impl View for AppController {
    type V = AppView;

    closed spec fn view(&self) -> AppView {
        AppView {
            tab: self.tab,
            tasks: self.tasks@,
            workspaces: self.workspaces@,
            todo_modal: self.todo_modal@,
            workspace_modal: self.workspace_modal@,
            notice: self.notice,
        }
    }
}

impl AppController {
    /// Every part is well formed, and at most one modal is open.
    pub open spec fn wf(&self) -> bool {
        self@.wf()
    }

    /// A session without tasks or workspaces.
    pub fn new() -> (app: AppController)
        ensures
            app.wf(),
            app@ == AppView::initial(
                ListView { items: Seq::empty(), selected: None },
                ListView { items: Seq::empty(), selected: None },
            ),
    {
        AppController::with_stores(TaskStore::new(), WorkspaceStore::new())
    }

    /// The session that starts from what the two files held, with `None` for
    /// a file that could not be read. A missing file and a damaged one both
    /// count as an empty list.
    pub fn load(task_file: Option<&[u8]>, workspace_file: Option<&[u8]>) -> (app: AppController)
        ensures
            app.wf(),
            app@ == AppView::started(
                todos_of_file(
                    match task_file {
                        Some(bytes) => Some(bytes@),
                        None => None,
                    },
                ),
                workspaces_of_file(
                    match workspace_file {
                        Some(bytes) => Some(bytes@),
                        None => None,
                    },
                ),
            ),
    {
        AppController::with_stores(TaskStore::load(task_file), WorkspaceStore::load(workspace_file))
    }

    /// A session over the given stores.
    pub fn with_stores(tasks: TaskStore, workspaces: WorkspaceStore) -> (app: AppController)
        requires
            tasks.wf(),
            workspaces.wf(),
        ensures
            app.wf(),
            app@ == AppView::initial(tasks@, workspaces@),
    {
        AppController {
            tab: Tab::Todos,
            tasks,
            workspaces,
            todo_modal: Modal::new(),
            workspace_modal: Modal::new(),
            notice: Notice::Quiet,
        }
    }

    /// The tab that is shown.
    pub fn tab(&self) -> (tab: Tab)
        ensures
            tab == self@.tab,
    {
        self.tab
    }

    /// The tasks and the selection of their list.
    pub fn tasks(&self) -> (tasks: &TaskStore)
        ensures
            tasks@ == self@.tasks,
    {
        &self.tasks
    }

    /// The workspaces and the selection of their list.
    pub fn workspaces(&self) -> (workspaces: &WorkspaceStore)
        ensures
            workspaces@ == self@.workspaces,
    {
        &self.workspaces
    }

    /// The input overlay for a new task.
    pub fn todo_modal(&self) -> (modal: &Modal)
        ensures
            modal@ == self@.todo_modal,
    {
        &self.todo_modal
    }

    /// The input overlay for a new workspace.
    pub fn workspace_modal(&self) -> (modal: &Modal)
        ensures
            modal@ == self@.workspace_modal,
    {
        &self.workspace_modal
    }

    /// The notice that is shown.
    pub fn notice(&self) -> (notice: Notice)
        ensures
            notice == self@.notice,
    {
        self.notice
    }

    /// Tells the user that the last write to disk failed. The data in memory
    /// stays as it is, so a later save can still succeed.
    pub fn report_save_failure(&mut self)
        ensures
            final(self)@ == (AppView { notice: Notice::SaveFailed, ..old(self)@ }),
    {
        self.notice = Notice::SaveFailed;
    }

    /// Handles one key press, reading the clock for the timestamps of a task
    /// that the key may create. The outcome is that of `handle_key_at` for
    /// some reading of the clock.
    pub fn handle_key(&mut self, key: Key) -> (effect: Effect)
        requires
            old(self).wf(),
        ensures
            final(self).wf(),
            exists|now: i64| (final(self)@, effect) == #[trigger] old(self)@.step(key, now),
    {
        let now: i64 = now_millis();
        self.handle_key_at(key, now)
    }

    /// Handles one key press at time `now` and says what the host has to do.
    pub fn handle_key_at(&mut self, key: Key, now: i64) -> (effect: Effect)
        requires
            old(self).wf(),
        ensures
            final(self).wf(),
            (final(self)@, effect) == old(self)@.step(key, now),
    {
        self.notice = Notice::Quiet;
        if self.todo_modal.is_editing() {
            match self.todo_modal.handle_key(key) {
                ModalOutcome::Submitted(title) => self.submit_task(title, now),
                _ => Effect::Redraw,
            }
        } else if self.workspace_modal.is_editing() {
            match self.workspace_modal.handle_key(key) {
                ModalOutcome::Submitted(title) => self.submit_workspace(title),
                _ => Effect::Redraw,
            }
        } else {
            self.run_command(command_for(key))
        }
    }

    /// Puts a submitted title into the task store.
    fn submit_task(&mut self, title: String, now: i64) -> (effect: Effect)
        requires
            old(self).wf(),
            !old(self)@.modal_open(),
        ensures
            final(self).wf(),
            (final(self)@, effect) == old(self)@.submit_task(title@, now),
    {
        match self.tasks.create_at(title, String::new(), now, now) {
            Ok(_) => Effect::SaveTasks,
            Err(_) => {
                self.notice = Notice::IdsExhausted;
                Effect::Redraw
            },
        }
    }

    /// Puts a submitted title into the workspace store.
    fn submit_workspace(&mut self, title: String) -> (effect: Effect)
        requires
            old(self).wf(),
            !old(self)@.modal_open(),
        ensures
            final(self).wf(),
            (final(self)@, effect) == old(self)@.submit_workspace(title@),
    {
        match self.workspaces.create(title) {
            Ok(_) => Effect::SaveWorkspaces,
            Err(_) => {
                self.notice = Notice::IdsExhausted;
                Effect::Redraw
            },
        }
    }

    /// Carries out a command while no modal is open.
    fn run_command(&mut self, command: Command) -> (effect: Effect)
        requires
            old(self).wf(),
            !old(self)@.modal_open(),
        ensures
            final(self).wf(),
            (final(self)@, effect) == old(self)@.command(command),
    {
        match command {
            Command::Quit => Effect::Quit,
            Command::NextTab => {
                self.tab = self.tab.next();
                Effect::Redraw
            },
            Command::GoTo(tab) => {
                self.tab = tab;
                Effect::Redraw
            },
            _ => match self.tab {
                Tab::Status => Effect::Redraw,
                Tab::Inbox => self.run_task_command(command),
                Tab::Todos => self.run_task_command(command),
                Tab::Workspaces => self.run_workspace_command(command),
            },
        }
    }

    /// Carries out a list command on the tasks.
    fn run_task_command(&mut self, command: Command) -> (effect: Effect)
        requires
            old(self).wf(),
            !old(self)@.modal_open(),
        ensures
            final(self).wf(),
            (final(self)@, effect) == old(self)@.task_command(command),
    {
        match command {
            Command::OpenModal => {
                self.todo_modal.open();
                Effect::Redraw
            },
            Command::SelectNext => {
                self.tasks.select_next();
                Effect::Redraw
            },
            Command::SelectPrevious => {
                self.tasks.select_previous();
                Effect::Redraw
            },
            Command::DeleteSelected => match self.tasks.selected() {
                Some(i) => if self.tasks.delete(i) {
                    Effect::SaveTasks
                } else {
                    Effect::Redraw
                },
                None => Effect::Redraw,
            },
            Command::ToggleSelected => match self.tasks.selected() {
                Some(i) => if self.tab == Tab::Todos && self.tasks.toggle(i) {
                    Effect::SaveTasks
                } else {
                    Effect::Redraw
                },
                None => Effect::Redraw,
            },
            _ => Effect::Redraw,
        }
    }

    /// Carries out a list command on the workspaces.
    fn run_workspace_command(&mut self, command: Command) -> (effect: Effect)
        requires
            old(self).wf(),
            !old(self)@.modal_open(),
        ensures
            final(self).wf(),
            (final(self)@, effect) == old(self)@.workspace_command(command),
    {
        match command {
            Command::OpenModal => {
                self.workspace_modal.open();
                Effect::Redraw
            },
            Command::SelectNext => {
                self.workspaces.select_next();
                Effect::Redraw
            },
            Command::SelectPrevious => {
                self.workspaces.select_previous();
                Effect::Redraw
            },
            Command::DeleteSelected => match self.workspaces.selected() {
                Some(i) => if self.workspaces.delete(i) {
                    Effect::SaveWorkspaces
                } else {
                    Effect::Redraw
                },
                None => Effect::Redraw,
            },
            _ => Effect::Redraw,
        }
    }
}

} // verus!
