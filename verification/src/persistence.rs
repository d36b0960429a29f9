//! Tasks and workspaces as bytes.
//!
//! A list is written as `bincode` writes a vector of plain rows, one row per
//! record with the fields in their order. Reading is forgiving: bytes that
//! do not hold such a vector give an empty list, so a damaged file costs the
//! data in it and is not reported.

use crate::entities::todo::Todo;
use crate::entities::todo::TodoView;
use crate::entities::workspace::Workspace;
use crate::entities::workspace::WorkspaceView;
use crate::task_store::todo_views;
use crate::workspace_store::workspace_views;
use vstd::prelude::*;

verus! {

/// A task as a row of plain values: id, title, content, completion mark,
/// time of creation, time of the last update.
pub type TodoRow = (u64, String, String, bool, i64, i64);

/// A workspace as a row of plain values: id and title.
pub type WorkspaceRow = (u64, String);

/// Why a list could not be turned into bytes.
#[derive(Clone, Copy, Debug, PartialEq, Eq, Structural)]
pub enum CodecError {
    /// The encoder gave up.
    Encode,
}

/// The error of `bincode`. Nothing is read from it.
#[verifier::external_type_specification]
#[verifier::external_body]
pub struct ExBincodeErrorKind(bincode::ErrorKind);

/// What `bincode::serialize` makes of a vector of task rows: the bytes, or
/// nothing where it gives up.
pub uninterp spec fn bincode_of_todo_rows(
    rows: Seq<(u64, Seq<char>, Seq<char>, bool, i64, i64)>,
) -> Option<Seq<u8>>;

/// The task rows that `bincode::deserialize` reads from the given bytes, if
/// it reads any.
pub uninterp spec fn todo_rows_of_bincode(bytes: Seq<u8>) -> Option<
    Seq<(u64, Seq<char>, Seq<char>, bool, i64, i64)>,
>;

/// What `bincode::serialize` makes of a vector of workspace rows: the bytes,
/// or nothing where it gives up.
pub uninterp spec fn bincode_of_workspace_rows(rows: Seq<(u64, Seq<char>)>) -> Option<Seq<u8>>;

/// The workspace rows that `bincode::deserialize` reads from the given
/// bytes, if it reads any.
pub uninterp spec fn workspace_rows_of_bincode(bytes: Seq<u8>) -> Option<Seq<(u64, Seq<char>)>>;

/// `bincode::serialize` on a vector of task rows. It writes into memory
/// without a size limit, so whether it succeeds, and with which bytes,
/// depends on the rows alone. Where it succeeds, `bincode::deserialize` reads
/// the same rows back from the bytes: integers, booleans and strings all
/// survive the trip unchanged. That it succeeds is not claimed.
#[verifier::external_body]
fn serialize_todo_rows(rows: &Vec<TodoRow>) -> (r: Result<Vec<u8>, Box<bincode::ErrorKind>>)
    ensures
        match r {
            Ok(bytes) => bincode_of_todo_rows(rows.deep_view()) == Some(bytes@),
            Err(_) => bincode_of_todo_rows(rows.deep_view()) is None,
        },
        r matches Ok(bytes) ==> todo_rows_of_bincode(bytes@) == Some(rows.deep_view()),
{
    bincode::serialize(rows)
}

/// `bincode::deserialize` on a byte slice, read as a vector of task rows.
/// Whether it succeeds, and with which rows, depends on the bytes alone.
#[verifier::external_body]
fn deserialize_todo_rows(bytes: &[u8]) -> (r: Result<Vec<TodoRow>, Box<bincode::ErrorKind>>)
    ensures
        match r {
            Ok(rows) => todo_rows_of_bincode(bytes@) == Some(rows.deep_view()),
            Err(_) => todo_rows_of_bincode(bytes@) is None,
        },
{
    bincode::deserialize(bytes)
}

/// `bincode::serialize` on a vector of workspace rows. It writes into
/// memory without a size limit, so whether it succeeds, and with which bytes,
/// depends on the rows alone. Where it succeeds, `bincode::deserialize` reads
/// the same rows back from the bytes. That it succeeds is not claimed.
#[verifier::external_body]
fn serialize_workspace_rows(rows: &Vec<WorkspaceRow>) -> (r: Result<
    Vec<u8>,
    Box<bincode::ErrorKind>,
>)
    ensures
        match r {
            Ok(bytes) => bincode_of_workspace_rows(rows.deep_view()) == Some(bytes@),
            Err(_) => bincode_of_workspace_rows(rows.deep_view()) is None,
        },
        r matches Ok(bytes) ==> workspace_rows_of_bincode(bytes@) == Some(rows.deep_view()),
{
    bincode::serialize(rows)
}

/// `bincode::deserialize` on a byte slice, read as a vector of workspace
/// rows. Whether it succeeds, and with which rows, depends on the bytes
/// alone.
#[verifier::external_body]
fn deserialize_workspace_rows(bytes: &[u8]) -> (r: Result<
    Vec<WorkspaceRow>,
    Box<bincode::ErrorKind>,
>)
    ensures
        match r {
            Ok(rows) => workspace_rows_of_bincode(bytes@) == Some(rows.deep_view()),
            Err(_) => workspace_rows_of_bincode(bytes@) is None,
        },
{
    bincode::deserialize(bytes)
}

/// The row that stands for a task.
pub open spec fn row_of_todo(todo: TodoView) -> (u64, Seq<char>, Seq<char>, bool, i64, i64) {
    (todo.id as u64, todo.title, todo.content, todo.done, todo.created_at, todo.updated_at)
}

/// The rows that stand for the given tasks, in the same order.
pub open spec fn rows_of_todos(todos: Seq<TodoView>) -> Seq<
    (u64, Seq<char>, Seq<char>, bool, i64, i64),
> {
    Seq::new(todos.len(), |i: int| row_of_todo(todos[i]))
}

/// The task that a row stands for, where its id fits the machine.
pub open spec fn todo_of_row(row: (u64, Seq<char>, Seq<char>, bool, i64, i64)) -> TodoView {
    TodoView {
        id: row.0 as usize,
        title: row.1,
        content: row.2,
        done: row.3,
        created_at: row.4,
        updated_at: row.5,
    }
}

/// The tasks that the given rows stand for, or nothing when the id of some
/// row is too large for the machine.
pub open spec fn todos_of_rows(rows: Seq<(u64, Seq<char>, Seq<char>, bool, i64, i64)>) -> Option<
    Seq<TodoView>,
> {
    if forall|i: int| 0 <= i < rows.len() ==> (#[trigger] rows[i]).0 <= usize::MAX {
        Some(Seq::new(rows.len(), |i: int| todo_of_row(rows[i])))
    } else {
        None
    }
}

/// The tasks that were read, or no tasks where reading failed.
pub open spec fn todos_or_nothing(
    decoded: Option<Seq<(u64, Seq<char>, Seq<char>, bool, i64, i64)>>,
) -> Seq<TodoView> {
    match decoded {
        Some(rows) => match todos_of_rows(rows) {
            Some(todos) => todos,
            None => Seq::empty(),
        },
        None => Seq::empty(),
    }
}

/// The bytes that stand for the given tasks: what the encoder makes of
/// their rows, or nothing where the encoder gives up on them.
pub open spec fn bytes_of_todos(todos: Seq<TodoView>) -> Option<Seq<u8>> {
    bincode_of_todo_rows(rows_of_todos(todos))
}

/// The tasks that the given bytes hold, and no tasks where the bytes hold
/// no list of tasks.
pub open spec fn todos_of_bytes(bytes: Seq<u8>) -> Seq<TodoView> {
    todos_or_nothing(todo_rows_of_bincode(bytes))
}

/// The tasks that a session starts with, given what its file held: the
/// tasks in the bytes, and no tasks where there was no file to read.
pub open spec fn todos_of_file(contents: Option<Seq<u8>>) -> Seq<TodoView> {
    match contents {
        Some(bytes) => todos_of_bytes(bytes),
        None => Seq::empty(),
    }
}

/// Turning tasks into rows and back loses nothing.
pub proof fn law_rows_keep_todos(todos: Seq<TodoView>)
    ensures
        todos_of_rows(rows_of_todos(todos)) == Some(todos),
{
    let rows = rows_of_todos(todos);
    assert forall|i: int| 0 <= i < rows.len() implies (#[trigger] rows[i]).0 <= usize::MAX by {
        assert(rows[i].0 == todos[i].id as u64);
    }
    assert(Seq::new(rows.len(), |i: int| todo_of_row(rows[i])) =~= todos);
}

/// The rows for the given tasks. Titles and contents are copied.
pub fn todo_rows(tasks: &Vec<Todo>) -> (rows: Vec<TodoRow>)
    ensures
        rows.deep_view() == rows_of_todos(todo_views(tasks@)),
{
    let mut rows: Vec<TodoRow> = Vec::new();
    let mut i: usize = 0;
    while i < tasks.len()
        invariant
            i <= tasks.len(),
            rows.len() == i,
            rows.deep_view() == rows_of_todos(todo_views(tasks@)).subrange(0, i as int),
        decreases tasks.len() - i,
    {
        let todo = &tasks[i];
        let row: TodoRow = (
            todo.id as u64,
            todo.title.clone(),
            todo.content.clone(),
            todo.done,
            todo.created_at,
            todo.updated_at,
        );
        let ghost before = rows.deep_view();
        assert(row.deep_view() == row_of_todo(tasks[i as int]@));
        rows.push(row);
        assert forall|j: int| 0 <= j < i + 1 implies #[trigger] rows.deep_view()[j]
            == rows_of_todos(todo_views(tasks@))[j] by {
            if j < i {
                assert(rows.deep_view()[j] == before[j]);
            } else {
                assert(rows.deep_view()[j] == rows@[j].deep_view());
            }
        }
        assert(rows.deep_view() =~= rows_of_todos(todo_views(tasks@)).subrange(0, i + 1));
        i = i + 1;
    }
    assert(rows.deep_view() =~= rows_of_todos(todo_views(tasks@)));
    rows
}

/// The tasks for the given rows, or `None` when the id of some row is too
/// large for the machine. Titles and contents are copied.
pub fn todos_from_rows(rows: &Vec<TodoRow>) -> (r: Option<Vec<Todo>>)
    ensures
        match r {
            Some(tasks) => todos_of_rows(rows.deep_view()) == Some(todo_views(tasks@)),
            None => todos_of_rows(rows.deep_view()) is None,
        },
{
    let ghost views = rows.deep_view();
    let mut tasks: Vec<Todo> = Vec::new();
    let mut i: usize = 0;
    while i < rows.len()
        invariant
            i <= rows.len(),
            views == rows.deep_view(),
            tasks.len() == i,
            forall|j: int| 0 <= j < i ==> (#[trigger] views[j]).0 <= usize::MAX,
            forall|j: int| 0 <= j < i ==> (#[trigger] tasks[j])@ == todo_of_row(views[j]),
        decreases rows.len() - i,
    {
        let row = &rows[i];
        assert(views[i as int] == row.deep_view());
        if row.0 > usize::MAX as u64 {
            return None;
        }
        let todo = Todo::from_parts(
            row.0 as usize,
            row.1.clone(),
            row.2.clone(),
            row.3,
            row.4,
            row.5,
        );
        tasks.push(todo);
        i = i + 1;
    }
    assert(todo_views(tasks@) =~= Seq::new(views.len(), |j: int| todo_of_row(views[j])));
    Some(tasks)
}

/// The tasks that the decoder read, or no tasks where it failed or an id
/// is too large for the machine.
pub fn todos_or_empty(decoded: Result<Vec<TodoRow>, Box<bincode::ErrorKind>>) -> (tasks: Vec<Todo>)
    ensures
        todo_views(tasks@) == todos_or_nothing(
            match decoded {
                Ok(rows) => Some(rows.deep_view()),
                Err(_) => None,
            },
        ),
{
    let read = match decoded {
        Ok(rows) => todos_from_rows(&rows),
        Err(_) => None,
    };
    match read {
        Some(tasks) => tasks,
        None => {
            let tasks: Vec<Todo> = Vec::new();
            assert(todo_views(tasks@) =~= Seq::empty());
            tasks
        },
    }
}

/// What the encoder returned, with its error replaced by the one of this
/// library.
pub fn encoded(result: Result<Vec<u8>, Box<bincode::ErrorKind>>) -> (r: Result<Vec<u8>, CodecError>)
    ensures
        match result {
            Ok(bytes) => r == Ok::<Vec<u8>, CodecError>(bytes),
            Err(_) => r == Err::<Vec<u8>, CodecError>(CodecError::Encode),
        },
{
    match result {
        Ok(bytes) => Ok(bytes),
        Err(_) => Err(CodecError::Encode),
    }
}

/// The given tasks as bytes: the bytes that the encoder makes of their
/// rows, and the error exactly where the encoder gives up on them. Reading
/// the bytes back gives the same tasks in the same order, field for field.
pub fn encode_todos(tasks: &Vec<Todo>) -> (r: Result<Vec<u8>, CodecError>)
    ensures
        match r {
            Ok(bytes) => {
                &&& bytes_of_todos(todo_views(tasks@)) == Some(bytes@)
                &&& todos_of_bytes(bytes@) == todo_views(tasks@)
            },
            Err(e) => {
                &&& e == CodecError::Encode
                &&& bytes_of_todos(todo_views(tasks@)) is None
            },
        },
{
    let rows = todo_rows(tasks);
    proof {
        law_rows_keep_todos(todo_views(tasks@));
    }
    encoded(serialize_todo_rows(&rows))
}

/// The tasks that the given bytes hold. Bytes that hold no list of tasks
/// give an empty list.
pub fn decode_todos(bytes: &[u8]) -> (tasks: Vec<Todo>)
    ensures
        todo_views(tasks@) == todos_of_bytes(bytes@),
{
    todos_or_empty(deserialize_todo_rows(bytes))
}

/// The row that stands for a workspace.
pub open spec fn row_of_workspace(workspace: WorkspaceView) -> (u64, Seq<char>) {
    (workspace.id as u64, workspace.title)
}

/// The rows that stand for the given workspaces, in the same order.
pub open spec fn rows_of_workspaces(workspaces: Seq<WorkspaceView>) -> Seq<(u64, Seq<char>)> {
    Seq::new(workspaces.len(), |i: int| row_of_workspace(workspaces[i]))
}

/// The workspace that a row stands for, where its id fits the machine.
pub open spec fn workspace_of_row(row: (u64, Seq<char>)) -> WorkspaceView {
    WorkspaceView { id: row.0 as usize, title: row.1 }
}

/// The workspaces that the given rows stand for, or nothing when the id of
/// some row is too large for the machine.
pub open spec fn workspaces_of_rows(rows: Seq<(u64, Seq<char>)>) -> Option<Seq<WorkspaceView>> {
    if forall|i: int| 0 <= i < rows.len() ==> (#[trigger] rows[i]).0 <= usize::MAX {
        Some(Seq::new(rows.len(), |i: int| workspace_of_row(rows[i])))
    } else {
        None
    }
}

/// The workspaces that were read, or none where reading failed.
pub open spec fn workspaces_or_nothing(decoded: Option<Seq<(u64, Seq<char>)>>) -> Seq<
    WorkspaceView,
> {
    match decoded {
        Some(rows) => match workspaces_of_rows(rows) {
            Some(workspaces) => workspaces,
            None => Seq::empty(),
        },
        None => Seq::empty(),
    }
}

/// The bytes that stand for the given workspaces: what the encoder makes
/// of their rows, or nothing where the encoder gives up on them.
pub open spec fn bytes_of_workspaces(workspaces: Seq<WorkspaceView>) -> Option<Seq<u8>> {
    bincode_of_workspace_rows(rows_of_workspaces(workspaces))
}

/// The workspaces that the given bytes hold, and none where the bytes hold
/// no list of workspaces.
pub open spec fn workspaces_of_bytes(bytes: Seq<u8>) -> Seq<WorkspaceView> {
    workspaces_or_nothing(workspace_rows_of_bincode(bytes))
}

/// The workspaces that a session starts with, given what its file held:
/// the workspaces in the bytes, and none where there was no file to read.
pub open spec fn workspaces_of_file(contents: Option<Seq<u8>>) -> Seq<WorkspaceView> {
    match contents {
        Some(bytes) => workspaces_of_bytes(bytes),
        None => Seq::empty(),
    }
}

/// Turning workspaces into rows and back loses nothing.
pub proof fn law_rows_keep_workspaces(workspaces: Seq<WorkspaceView>)
    ensures
        workspaces_of_rows(rows_of_workspaces(workspaces)) == Some(workspaces),
{
    let rows = rows_of_workspaces(workspaces);
    assert forall|i: int| 0 <= i < rows.len() implies (#[trigger] rows[i]).0 <= usize::MAX by {
        assert(rows[i].0 == workspaces[i].id as u64);
    }
    assert(Seq::new(rows.len(), |i: int| workspace_of_row(rows[i])) =~= workspaces);
}

/// The rows for the given workspaces. Titles are copied.
pub fn workspace_rows(workspaces: &Vec<Workspace>) -> (rows: Vec<WorkspaceRow>)
    ensures
        rows.deep_view() == rows_of_workspaces(workspace_views(workspaces@)),
{
    let mut rows: Vec<WorkspaceRow> = Vec::new();
    let mut i: usize = 0;
    while i < workspaces.len()
        invariant
            i <= workspaces.len(),
            rows.len() == i,
            rows.deep_view() == rows_of_workspaces(workspace_views(workspaces@)).subrange(
                0,
                i as int,
            ),
        decreases workspaces.len() - i,
    {
        let workspace = &workspaces[i];
        let row: WorkspaceRow = (workspace.id as u64, workspace.title.clone());
        let ghost before = rows.deep_view();
        assert(row.deep_view() == row_of_workspace(workspaces[i as int]@));
        rows.push(row);
        assert forall|j: int| 0 <= j < i + 1 implies #[trigger] rows.deep_view()[j]
            == rows_of_workspaces(workspace_views(workspaces@))[j] by {
            if j < i {
                assert(rows.deep_view()[j] == before[j]);
            } else {
                assert(rows.deep_view()[j] == rows@[j].deep_view());
            }
        }
        assert(rows.deep_view() =~= rows_of_workspaces(workspace_views(workspaces@)).subrange(
            0,
            i + 1,
        ));
        i = i + 1;
    }
    assert(rows.deep_view() =~= rows_of_workspaces(workspace_views(workspaces@)));
    rows
}

/// The workspaces for the given rows, or `None` when the id of some row is
/// too large for the machine. Titles are copied.
pub fn workspaces_from_rows(rows: &Vec<WorkspaceRow>) -> (r: Option<Vec<Workspace>>)
    ensures
        match r {
            Some(workspaces) => workspaces_of_rows(rows.deep_view()) == Some(
                workspace_views(workspaces@),
            ),
            None => workspaces_of_rows(rows.deep_view()) is None,
        },
{
    let ghost views = rows.deep_view();
    let mut workspaces: Vec<Workspace> = Vec::new();
    let mut i: usize = 0;
    while i < rows.len()
        invariant
            i <= rows.len(),
            views == rows.deep_view(),
            workspaces.len() == i,
            forall|j: int| 0 <= j < i ==> (#[trigger] views[j]).0 <= usize::MAX,
            forall|j: int| 0 <= j < i ==> (#[trigger] workspaces[j])@ == workspace_of_row(views[j]),
        decreases rows.len() - i,
    {
        let row = &rows[i];
        assert(views[i as int] == row.deep_view());
        if row.0 > usize::MAX as u64 {
            return None;
        }
        workspaces.push(Workspace::with_id(row.0 as usize, row.1.clone()));
        i = i + 1;
    }
    assert(workspace_views(workspaces@) =~= Seq::new(
        views.len(),
        |j: int| workspace_of_row(views[j]),
    ));
    Some(workspaces)
}

/// The workspaces that the decoder read, or none where it failed or an id
/// is too large for the machine.
pub fn workspaces_or_empty(decoded: Result<Vec<WorkspaceRow>, Box<bincode::ErrorKind>>) -> (workspaces:
    Vec<Workspace>)
    ensures
        workspace_views(workspaces@) == workspaces_or_nothing(
            match decoded {
                Ok(rows) => Some(rows.deep_view()),
                Err(_) => None,
            },
        ),
{
    let read = match decoded {
        Ok(rows) => workspaces_from_rows(&rows),
        Err(_) => None,
    };
    match read {
        Some(workspaces) => workspaces,
        None => {
            let workspaces: Vec<Workspace> = Vec::new();
            assert(workspace_views(workspaces@) =~= Seq::empty());
            workspaces
        },
    }
}

/// The given workspaces as bytes: the bytes that the encoder makes of their
/// rows, and the error exactly where the encoder gives up on them. Reading
/// the bytes back gives the same workspaces in the same order.
pub fn encode_workspaces(workspaces: &Vec<Workspace>) -> (r: Result<Vec<u8>, CodecError>)
    ensures
        match r {
            Ok(bytes) => {
                &&& bytes_of_workspaces(workspace_views(workspaces@)) == Some(bytes@)
                &&& workspaces_of_bytes(bytes@) == workspace_views(workspaces@)
            },
            Err(e) => {
                &&& e == CodecError::Encode
                &&& bytes_of_workspaces(workspace_views(workspaces@)) is None
            },
        },
{
    let rows = workspace_rows(workspaces);
    proof {
        law_rows_keep_workspaces(workspace_views(workspaces@));
    }
    encoded(serialize_workspace_rows(&rows))
}

/// The workspaces that the given bytes hold. Bytes that hold no list of
/// workspaces give an empty list.
pub fn decode_workspaces(bytes: &[u8]) -> (workspaces: Vec<Workspace>)
    ensures
        workspace_views(workspaces@) == workspaces_of_bytes(bytes@),
{
    workspaces_or_empty(deserialize_workspace_rows(bytes))
}

} // verus!
