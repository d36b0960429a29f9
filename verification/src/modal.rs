//! A text-input overlay that owns the keyboard while it is open.

use crate::keys::Key;
use crate::text_editor::EditBuffer;
use crate::text_editor::TextEditor;
use vstd::prelude::*;

verus! {

/// The mathematical content of a [`Modal`].
pub struct ModalView {
    pub editing: bool,
    pub buffer: EditBuffer,
}

/// What a key press did to a modal, with the submitted text as characters.
pub enum ModalEvent {
    /// The modal is hidden and did not take the key.
    Ignored,
    /// The modal took the key and is still open.
    Editing,
    /// Enter: the text is handed over and the modal is closed.
    Submitted(Seq<char>),
    /// Escape: the text is dropped and the modal is closed.
    Cancelled,
}

impl ModalView {
    /// The buffer is well formed, and a hidden modal holds no text.
    pub open spec fn wf(self) -> bool {
        &&& self.buffer.wf()
        &&& !self.editing ==> self.buffer == EditBuffer::empty()
    }

    /// A hidden modal without text.
    pub open spec fn hidden() -> ModalView {
        ModalView { editing: false, buffer: EditBuffer::empty() }
    }

    /// The modal after the owning view asked for it. An open modal keeps its
    /// text.
    pub open spec fn opened(self) -> ModalView {
        ModalView { editing: true, buffer: self.buffer }
    }

    /// The modal after a key press.
    pub open spec fn after_key(self, key: Key) -> ModalView {
        if !self.editing {
            self
        } else {
            match key {
                Key::Char(c) => ModalView { editing: true, buffer: self.buffer.insert(c) },
                Key::Backspace => ModalView {
                    editing: true,
                    buffer: self.buffer.delete_before_cursor(),
                },
                Key::Left => ModalView { editing: true, buffer: self.buffer.move_left() },
                Key::Right => ModalView { editing: true, buffer: self.buffer.move_right() },
                Key::Enter => ModalView::hidden(),
                Key::Esc => ModalView::hidden(),
                _ => self,
            }
        }
    }

    /// What a key press means to the owner of the modal.
    pub open spec fn event_of(self, key: Key) -> ModalEvent {
        if !self.editing {
            ModalEvent::Ignored
        } else {
            match key {
                Key::Enter => ModalEvent::Submitted(self.buffer.text),
                Key::Esc => ModalEvent::Cancelled,
                _ => ModalEvent::Editing,
            }
        }
    }
}

/// What a key press did to a modal.
#[derive(Debug)]
pub enum ModalOutcome {
    /// The modal is hidden and did not take the key.
    Ignored,
    /// The modal took the key and is still open.
    Editing,
    /// Enter: the text is handed over and the modal is closed.
    Submitted(String),
    /// Escape: the text is dropped and the modal is closed.
    Cancelled,
}

impl View for ModalOutcome {
    type V = ModalEvent;

    open spec fn view(&self) -> ModalEvent {
        match self {
            ModalOutcome::Ignored => ModalEvent::Ignored,
            ModalOutcome::Editing => ModalEvent::Editing,
            ModalOutcome::Submitted(text) => ModalEvent::Submitted(text@),
            ModalOutcome::Cancelled => ModalEvent::Cancelled,
        }
    }
}

/// A text-input overlay: hidden, or editing one line of text.
pub struct Modal {
    editor: TextEditor,
    visible: bool,
}

impl View for Modal {
    type V = ModalView;

    closed spec fn view(&self) -> ModalView {
        ModalView { editing: self.visible, buffer: self.editor@ }
    }
}

impl Modal {
    /// The buffer is well formed, and a hidden modal holds no text.
    pub open spec fn wf(&self) -> bool {
        self@.wf()
    }

    /// A hidden modal without text.
    pub fn new() -> (modal: Modal)
        ensures
            modal.wf(),
            modal@ == ModalView::hidden(),
    {
        Modal { editor: TextEditor::new(), visible: false }
    }

    /// Shows the modal, which from now on takes every key.
    pub fn open(&mut self)
        requires
            old(self).wf(),
        ensures
            final(self).wf(),
            final(self)@ == old(self)@.opened(),
    {
        self.visible = true;
    }

    /// Whether the modal is open.
    pub fn is_editing(&self) -> (editing: bool)
        ensures
            editing == self@.editing,
    {
        self.visible
    }

    /// The line being edited.
    pub fn editor(&self) -> (editor: &TextEditor)
        ensures
            editor@ == self@.buffer,
    {
        &self.editor
    }

    /// Feeds one key press to the modal. While it is open the modal takes
    /// every key: character keys and Backspace edit the text, Left and Right
    /// move the cursor, Enter hands the text over, Escape drops it, and any
    /// other key is swallowed. Enter and Escape close the modal and leave its
    /// buffer empty. A hidden modal takes no key.
    pub fn handle_key(&mut self, key: Key) -> (outcome: ModalOutcome)
        requires
            old(self).wf(),
        ensures
            final(self).wf(),
            final(self)@ == old(self)@.after_key(key),
            outcome@ == old(self)@.event_of(key),
    {
        if !self.visible {
            return ModalOutcome::Ignored;
        }
        match key {
            Key::Char(c) => {
                self.editor.insert(c);
                ModalOutcome::Editing
            },
            Key::Backspace => {
                self.editor.delete_before_cursor();
                ModalOutcome::Editing
            },
            Key::Left => {
                self.editor.move_left();
                ModalOutcome::Editing
            },
            Key::Right => {
                self.editor.move_right();
                ModalOutcome::Editing
            },
            Key::Enter => {
                let text = self.editor.text();
                self.editor.clear();
                self.visible = false;
                ModalOutcome::Submitted(text)
            },
            Key::Esc => {
                self.editor.clear();
                self.visible = false;
                ModalOutcome::Cancelled
            },
            _ => ModalOutcome::Editing,
        }
    }
}

} // verus!
