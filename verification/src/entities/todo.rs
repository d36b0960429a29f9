//! A task.

use crate::clock::now_millis;
use vstd::prelude::*;
use vstd::string::*;

verus! {

/// The mathematical content of a [`Todo`].
pub struct TodoView {
    pub id: usize,
    pub title: Seq<char>,
    pub content: Seq<char>,
    pub done: bool,
    pub created_at: i64,
    pub updated_at: i64,
}

impl TodoView {
    /// The same task with its completion mark flipped. The timestamps stay
    /// as they were.
    pub open spec fn toggled(self) -> TodoView {
        TodoView { done: !self.done, ..self }
    }

    /// The line that stands for the task in a list: a check box, a space and
    /// the title.
    pub open spec fn label(self) -> Seq<char> {
        if self.done {
            "[X] "@ + self.title
        } else {
            "[ ] "@ + self.title
        }
    }
}

/// A task: a title, free text, a completion mark and two timestamps in
/// milliseconds since the Unix epoch. `updated_at` is set when the task is
/// built; toggling the task does not refresh it.
#[derive(Debug)]
pub struct Todo {
    pub id: usize,
    pub title: String,
    pub content: String,
    pub done: bool,
    pub created_at: i64,
    pub updated_at: i64,
}

impl View for Todo {
    type V = TodoView;

    open spec fn view(&self) -> TodoView {
        TodoView {
            id: self.id,
            title: self.title@,
            content: self.content@,
            done: self.done,
            created_at: self.created_at,
            updated_at: self.updated_at,
        }
    }
}

impl Todo {
    /// An open task stamped with the current time. The clock is read once
    /// for each timestamp, so the two may differ.
    pub fn new(id: usize, title: String, content: String) -> (todo: Todo)
        ensures
            todo@.id == id,
            todo@.title == title@,
            todo@.content == content@,
            !todo@.done,
    {
        let created_at: i64 = now_millis();
        let updated_at: i64 = now_millis();
        Todo::with_timestamps(id, title, content, created_at, updated_at)
    }

    /// An open task with the given timestamps.
    pub fn with_timestamps(
        id: usize,
        title: String,
        content: String,
        created_at: i64,
        updated_at: i64,
    ) -> (todo: Todo)
        ensures
            todo@ == (TodoView {
                id,
                title: title@,
                content: content@,
                done: false,
                created_at,
                updated_at,
            }),
    {
        Todo { id, title, content, done: false, created_at, updated_at }
    }

    /// A task with every field given.
    pub fn from_parts(
        id: usize,
        title: String,
        content: String,
        done: bool,
        created_at: i64,
        updated_at: i64,
    ) -> (todo: Todo)
        ensures
            todo@ == (TodoView {
                id,
                title: title@,
                content: content@,
                done,
                created_at,
                updated_at,
            }),
    {
        Todo { id, title, content, done, created_at, updated_at }
    }

    /// Flips the completion mark and leaves everything else alone.
    pub fn toggle(&mut self)
        ensures
            final(self)@ == old(self)@.toggled(),
    {
        self.done = !self.done;
    }

    /// The line that stands for the task in a list, `[X] title` when done
    /// and `[ ] title` when open.
    pub fn label(&self) -> (text: String)
        ensures
            text@ == self@.label(),
    {
        let mut text = if self.done {
            String::from_str("[X] ")
        } else {
            String::from_str("[ ] ")
        };
        text.append(self.title.as_str());
        text
    }
}

} // verus!
