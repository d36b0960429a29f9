//! The tasks of a session, in the order in which they were added.

use crate::clock::now_millis;
use crate::entities::todo::Todo;
use crate::entities::todo::TodoView;
use crate::persistence::bytes_of_todos;
use crate::persistence::decode_todos;
use crate::persistence::encode_todos;
use crate::persistence::todos_of_bytes;
use crate::persistence::todos_of_file;
use crate::persistence::CodecError;
use crate::selectable_list::ListView;
use crate::selectable_list::SelectableList;
use vstd::prelude::*;

verus! {

/// Why a store could not take a new record.
#[derive(Clone, Copy, Debug, PartialEq, Eq, Structural)]
pub enum StoreError {
    /// The largest id in use is the largest number the machine can hold, so
    /// no larger one is left.
    IdsExhausted,
}

/// The views of the given tasks, in the same order.
pub open spec fn todo_views(tasks: Seq<Todo>) -> Seq<TodoView> {
    Seq::new(tasks.len(), |i: int| tasks[i]@)
}

/// The largest id among the given tasks, and 0 when there is none.
pub open spec fn max_task_id(tasks: Seq<TodoView>) -> nat
    decreases tasks.len(),
{
    if tasks.len() == 0 {
        0
    } else {
        let before = max_task_id(tasks.drop_last());
        if tasks.last().id > before {
            tasks.last().id as nat
        } else {
            before
        }
    }
}

/// The id that the next task gets: 0 in an empty store, else one more than
/// the largest id in use. Ids are therefore not a counter: once the task
/// with the largest id is deleted, its id is handed out again.
pub open spec fn next_task_id(tasks: Seq<TodoView>) -> nat {
    if tasks.len() == 0 {
        0
    } else {
        max_task_id(tasks) + 1
    }
}

/// A fresh open task as `create` builds it, for a list whose next id fits
/// the machine.
pub open spec fn new_task(
    tasks: Seq<TodoView>,
    title: Seq<char>,
    content: Seq<char>,
    created_at: i64,
    updated_at: i64,
) -> TodoView {
    TodoView {
        id: next_task_id(tasks) as usize,
        title,
        content,
        done: false,
        created_at,
        updated_at,
    }
}

/// The store after the task at `index` had its completion mark flipped. An
/// index past the end changes nothing.
pub open spec fn toggled_at(store: ListView<TodoView>, index: nat) -> ListView<TodoView> {
    if index < store.items.len() {
        ListView {
            items: store.items.update(index as int, store.items[index as int].toggled()),
            selected: store.selected,
        }
    } else {
        store
    }
}

/// The largest id is at least every id in the list, and some task carries
/// it unless the list is empty. The id that a store hands out next is
/// therefore in use by no task of it.
pub proof fn law_max_task_id_is_the_largest(tasks: Seq<TodoView>)
    ensures
        forall|i: int| 0 <= i < tasks.len() ==> (#[trigger] tasks[i]).id <= max_task_id(tasks),
        forall|i: int| 0 <= i < tasks.len() ==> (#[trigger] tasks[i]).id < next_task_id(tasks),
        tasks.len() > 0 ==> exists|i: int|
            0 <= i < tasks.len() && (#[trigger] tasks[i]).id == max_task_id(tasks),
    decreases tasks.len(),
{
    if tasks.len() > 0 {
        let front = tasks.drop_last();
        law_max_task_id_is_the_largest(front);
        assert forall|i: int| 0 <= i < tasks.len() implies (#[trigger] tasks[i]).id <= max_task_id(
            tasks,
        ) by {
            if i < front.len() {
                assert(front[i] == tasks[i]);
            }
        }
        if tasks.last().id > max_task_id(front) || front.len() == 0 {
            assert(tasks[tasks.len() - 1].id == max_task_id(tasks));
        } else {
            let i = choose|i: int| 0 <= i < front.len() && (#[trigger] front[i]).id == max_task_id(front);
            assert(tasks[i] == front[i]);
        }
    }
}

/// The tasks of a session together with the selection of the task list.
pub struct TaskStore {
    list: SelectableList<Todo>,
}

impl View for TaskStore {
    type V = ListView<TodoView>;

    closed spec fn view(&self) -> ListView<TodoView> {
        ListView { items: todo_views(self.list@.items), selected: self.list@.selected }
    }
}

impl TaskStore {
    /// The selection, if set, names a task of the store.
    pub open spec fn wf(&self) -> bool {
        self@.wf()
    }

    /// A store without tasks.
    pub fn new() -> (store: TaskStore)
        ensures
            store.wf(),
            store@.items == Seq::<TodoView>::empty(),
            store@.selected is None,
    {
        TaskStore { list: SelectableList::new() }
    }

    /// A store of the given tasks, the first of them selected.
    pub fn from_tasks(tasks: Vec<Todo>) -> (store: TaskStore)
        ensures
            store.wf(),
            store@.items == todo_views(tasks@),
            store@.selected == if tasks@.len() == 0 { None::<nat> } else { Some(0nat) },
    {
        TaskStore { list: SelectableList::from_vec(tasks) }
    }

    /// The store that the given bytes hold, the first task selected. Bytes
    /// that hold no list of tasks give an empty store: what a damaged file
    /// held is dropped without a report.
    pub fn decode(bytes: &[u8]) -> (store: TaskStore)
        ensures
            store.wf(),
            store@.items == todos_of_bytes(bytes@),
            store@.selected == if todos_of_bytes(bytes@).len() == 0 {
                None::<nat>
            } else {
                Some(0nat)
            },
    {
        TaskStore::from_tasks(decode_todos(bytes))
    }

    /// The store for the start of a session, given what the file held, with
    /// `None` for a file that could not be read. A missing file and a
    /// damaged one both give an empty store.
    pub fn load(contents: Option<&[u8]>) -> (store: TaskStore)
        ensures
            store.wf(),
            store@ == ListView::starting(
                todos_of_file(
                    match contents {
                        Some(bytes) => Some(bytes@),
                        None => None,
                    },
                ),
            ),
    {
        match contents {
            Some(bytes) => TaskStore::decode(bytes),
            None => TaskStore::new(),
        }
    }

    /// The tasks as bytes for the file: the bytes that the encoder makes of
    /// them, and the error exactly where the encoder gives up on them. The
    /// selection is not written. `decode` finds the same tasks in the bytes,
    /// in the same order and field for field.
    pub fn encode(&self) -> (r: Result<Vec<u8>, CodecError>)
        ensures
            match r {
                Ok(bytes) => {
                    &&& bytes_of_todos(self@.items) == Some(bytes@)
                    &&& todos_of_bytes(bytes@) == self@.items
                },
                Err(e) => {
                    &&& e == CodecError::Encode
                    &&& bytes_of_todos(self@.items) is None
                },
            },
    {
        encode_todos(self.list.items())
    }

    /// The tasks in the order in which they were added.
    pub fn list(&self) -> (tasks: &Vec<Todo>)
        ensures
            todo_views(tasks@) == self@.items,
    {
        self.list.items()
    }

    /// The number of tasks.
    pub fn len(&self) -> (n: usize)
        ensures
            n == self@.items.len(),
    {
        self.list.len()
    }

    /// The index of the selected task, if any.
    pub fn selected(&self) -> (index: Option<usize>)
        ensures
            index is Some == self@.selected is Some,
            index matches Some(i) ==> self@.selected == Some(i as nat),
    {
        self.list.selected()
    }

    /// The id for the next task, or `None` when the largest id in use leaves
    /// no room for a larger one.
    pub fn next_id(&self) -> (id: Option<usize>)
        ensures
            id == if next_task_id(self@.items) <= usize::MAX {
                Some(next_task_id(self@.items) as usize)
            } else {
                None
            },
    {
        let tasks = self.list.items();
        if tasks.len() == 0 {
            return Some(0);
        }
        let ghost views = todo_views(tasks@);
        let mut max_id: usize = 0;
        let mut i: usize = 0;
        while i < tasks.len()
            invariant
                i <= tasks.len(),
                views == todo_views(tasks@),
                max_id == max_task_id(views.subrange(0, i as int)),
            decreases tasks.len() - i,
        {
            assert(views.subrange(0, i + 1).drop_last() == views.subrange(0, i as int));
            if tasks[i].id > max_id {
                max_id = tasks[i].id;
            }
            i = i + 1;
        }
        assert(views.subrange(0, i as int) == views);
        if max_id == usize::MAX {
            None
        } else {
            Some(max_id + 1)
        }
    }

    /// Adds an open task with the given timestamps under the next id and
    /// returns that id. The selection does not move. When no id is left the
    /// store stays as it is.
    pub fn create_at(&mut self, title: String, content: String, created_at: i64, updated_at: i64) -> (r:
        Result<usize, StoreError>)
        requires
            old(self).wf(),
        ensures
            final(self).wf(),
            match r {
                Ok(id) => {
                    &&& id == next_task_id(old(self)@.items)
                    &&& final(self)@ == old(self)@.push(
                        new_task(old(self)@.items, title@, content@, created_at, updated_at),
                    )
                },
                Err(e) => {
                    &&& e == StoreError::IdsExhausted
                    &&& next_task_id(old(self)@.items) > usize::MAX
                    &&& final(self)@ == old(self)@
                },
            },
    {
        match self.next_id() {
            None => Err(StoreError::IdsExhausted),
            Some(id) => {
                let todo = Todo::with_timestamps(id, title, content, created_at, updated_at);
                self.list.push(todo);
                assert(self@.items =~= old(self)@.items.push(todo@));
                Ok(id)
            },
        }
    }

    /// Adds an open task stamped with the current time under the next id and
    /// returns that id. The selection does not move. When no id is left the
    /// store stays as it is.
    pub fn create(&mut self, title: String, content: String) -> (r: Result<usize, StoreError>)
        requires
            old(self).wf(),
        ensures
            final(self).wf(),
            match r {
                Ok(id) => {
                    &&& id == next_task_id(old(self)@.items)
                    &&& exists|created_at: i64, updated_at: i64|
                        final(self)@ == old(self)@.push(
                            #[trigger] new_task(
                                old(self)@.items,
                                title@,
                                content@,
                                created_at,
                                updated_at,
                            ),
                        )
                },
                Err(e) => {
                    &&& e == StoreError::IdsExhausted
                    &&& next_task_id(old(self)@.items) > usize::MAX
                    &&& final(self)@ == old(self)@
                },
            },
    {
        let created_at: i64 = now_millis();
        let updated_at: i64 = now_millis();
        self.create_at(title, content, created_at, updated_at)
    }

    /// Flips the completion mark of the task at `index` and says whether
    /// there was such a task. An index past the end changes nothing.
    pub fn toggle(&mut self, index: usize) -> (changed: bool)
        requires
            old(self).wf(),
        ensures
            final(self).wf(),
            changed == (index < old(self)@.items.len()),
            final(self)@ == toggled_at(old(self)@, index as nat),
    {
        if index < self.list.len() {
            let todo = self.list.item_mut(index);
            todo.toggle();
            assert(self@.items =~= toggled_at(old(self)@, index as nat).items);
            true
        } else {
            false
        }
    }

    /// Removes the task at `index` and says whether there was such a task.
    /// An index past the end changes nothing. The selection keeps its index
    /// unless it would point past the end of the shorter list.
    pub fn delete(&mut self, index: usize) -> (changed: bool)
        requires
            old(self).wf(),
        ensures
            final(self).wf(),
            changed == (index < old(self)@.items.len()),
            final(self)@ == old(self)@.remove_at(index as nat),
    {
        let removed = self.list.remove_at(index);
        assert(self@.items =~= old(self)@.remove_at(index as nat).items);
        removed.is_some()
    }

    /// Moves the selection one task forward, wrapping at the end.
    pub fn select_next(&mut self)
        requires
            old(self).wf(),
        ensures
            final(self).wf(),
            final(self)@ == old(self)@.select_next(),
    {
        self.list.select_next();
    }

    /// Moves the selection one task back, wrapping at the start.
    pub fn select_previous(&mut self)
        requires
            old(self).wf(),
        ensures
            final(self).wf(),
            final(self)@ == old(self)@.select_previous(),
    {
        self.list.select_previous();
    }
}

} // verus!
