//! A line of text with a cursor that counts characters, never bytes.

use vstd::prelude::*;

verus! {

/// The mathematical content of a [`TextEditor`]: the characters and the
/// position of the cursor among them.
pub struct EditBuffer {
    pub text: Seq<char>,
    pub cursor: nat,
}

impl EditBuffer {
    /// The cursor lies between the first character and the end of the text.
    pub open spec fn wf(self) -> bool {
        self.cursor <= self.text.len()
    }

    /// No text, cursor at the start.
    pub open spec fn empty() -> EditBuffer {
        EditBuffer { text: Seq::empty(), cursor: 0 }
    }

    /// The buffer after `c` was typed at the cursor.
    pub open spec fn insert(self, c: char) -> EditBuffer {
        EditBuffer {
            text: self.text.insert(self.cursor as int, c),
            cursor: self.cursor + 1,
        }
    }

    /// The buffer after the character left of the cursor was removed: what
    /// stood before that character, followed by what stands from the cursor
    /// on. At the start of the line nothing changes.
    pub open spec fn delete_before_cursor(self) -> EditBuffer {
        if self.cursor == 0 {
            self
        } else {
            EditBuffer {
                text: self.text.remove(self.cursor - 1),
                cursor: (self.cursor - 1) as nat,
            }
        }
    }

    /// The buffer after the cursor moved one character to the left.
    pub open spec fn move_left(self) -> EditBuffer {
        EditBuffer {
            text: self.text,
            cursor: if self.cursor == 0 { 0 } else { (self.cursor - 1) as nat },
        }
    }

    /// The buffer after the cursor moved one character to the right.
    pub open spec fn move_right(self) -> EditBuffer {
        EditBuffer {
            text: self.text,
            cursor: if self.cursor >= self.text.len() { self.cursor } else { self.cursor + 1 },
        }
    }
}

/// Typing a character and deleting it again gives back the buffer as it
/// was, text and cursor.
pub proof fn law_insert_then_delete_is_identity(buffer: EditBuffer, c: char)
    requires
        buffer.wf(),
    ensures
        buffer.insert(c).delete_before_cursor() == buffer,
{
    assert(buffer.insert(c).delete_before_cursor().text =~= buffer.text);
}

/// Typing a character, stepping left over it and deleting gives back the
/// text as it was when the character left of the cursor was the one typed.
/// The deletion then takes the old character and leaves the new one in its
/// place.
pub proof fn law_insert_left_delete_restores_text(buffer: EditBuffer, c: char)
    requires
        buffer.wf(),
        buffer.cursor > 0,
        buffer.text[buffer.cursor - 1] == c,
    ensures
        buffer.insert(c).move_left().delete_before_cursor().text == buffer.text,
{
    assert(buffer.insert(c).move_left().delete_before_cursor().text =~= buffer.text);
}

/// In every other case typing a character, stepping left over it and
/// deleting leaves a text that differs from the one before: at the start of
/// the line nothing is deleted, and elsewhere the character that goes is not
/// the one that came.
pub proof fn law_insert_left_delete_changes_text_otherwise(buffer: EditBuffer, c: char)
    requires
        buffer.wf(),
        buffer.cursor == 0 || buffer.text[buffer.cursor - 1] != c,
    ensures
        buffer.insert(c).move_left().delete_before_cursor().text != buffer.text,
{
    let after = buffer.insert(c).move_left().delete_before_cursor();
    if buffer.cursor == 0 {
        assert(after.text.len() == buffer.text.len() + 1);
    } else {
        assert(after.text[buffer.cursor - 1] == c);
    }
}

/// Every operation keeps the cursor inside the text or just behind it.
pub proof fn law_operations_keep_cursor_in_range(buffer: EditBuffer, c: char)
    requires
        buffer.wf(),
    ensures
        buffer.insert(c).wf(),
        buffer.delete_before_cursor().wf(),
        buffer.move_left().wf(),
        buffer.move_right().wf(),
        EditBuffer::empty().wf(),
        buffer.insert(c).text.len() == buffer.text.len() + 1,
{
}

/// `String::push` appends one character to the end of the string and leaves
/// what was there in place.
pub assume_specification[ String::push ](s: &mut String, c: char)
    ensures
        final(s)@ == old(s)@.push(c),
;

/// An editable line of text.
///
/// The text is kept as a sequence of Unicode scalar values, so a cursor
/// position always names a whole character, whatever its encoded width.
pub struct TextEditor {
    chars: Vec<char>,
    cursor: usize,
}

impl View for TextEditor {
    type V = EditBuffer;

    closed spec fn view(&self) -> EditBuffer {
        EditBuffer { text: self.chars@, cursor: self.cursor as nat }
    }
}

impl TextEditor {
    /// The cursor is inside the text or just behind it.
    pub open spec fn wf(&self) -> bool {
        self@.wf()
    }

    /// An editor with no text.
    pub fn new() -> (editor: TextEditor)
        ensures
            editor.wf(),
            editor@ == EditBuffer::empty(),
    {
        TextEditor { chars: Vec::new(), cursor: 0 }
    }

    /// Types `c` at the cursor and steps past it.
    pub fn insert(&mut self, c: char)
        requires
            old(self).wf(),
        ensures
            final(self).wf(),
            final(self)@ == old(self)@.insert(c),
    {
        self.chars.insert(self.cursor, c);
        assert(self.chars.len() <= usize::MAX);
        self.cursor = self.cursor + 1;
    }

    /// Removes the character left of the cursor, if there is one.
    pub fn delete_before_cursor(&mut self)
        requires
            old(self).wf(),
        ensures
            final(self).wf(),
            final(self)@ == old(self)@.delete_before_cursor(),
    {
        if self.cursor > 0 {
            self.cursor = self.cursor - 1;
            self.chars.remove(self.cursor);
        }
    }

    /// Moves the cursor one character to the left; at the start it stays.
    pub fn move_left(&mut self)
        requires
            old(self).wf(),
        ensures
            final(self).wf(),
            final(self)@ == old(self)@.move_left(),
    {
        if self.cursor > 0 {
            self.cursor = self.cursor - 1;
        }
    }

    /// Moves the cursor one character to the right; at the end it stays.
    pub fn move_right(&mut self)
        requires
            old(self).wf(),
        ensures
            final(self).wf(),
            final(self)@ == old(self)@.move_right(),
    {
        if self.cursor < self.chars.len() {
            self.cursor = self.cursor + 1;
        }
    }

    /// Drops the text and puts the cursor back at the start.
    pub fn clear(&mut self)
        ensures
            final(self).wf(),
            final(self)@ == EditBuffer::empty(),
    {
        self.chars.clear();
        self.cursor = 0;
    }

    /// The text as a string.
    pub fn text(&self) -> (text: String)
        ensures
            text@ == self@.text,
    {
        let mut text = String::new();
        let mut i: usize = 0;
        while i < self.chars.len()
            invariant
                i <= self.chars.len(),
                text@ == self.chars@.subrange(0, i as int),
            decreases self.chars.len() - i,
        {
            text.push(self.chars[i]);
            assert(text@ == self.chars@.subrange(0, i + 1));
            i = i + 1;
        }
        assert(self.chars@.subrange(0, i as int) == self.chars@);
        text
    }

    /// The cursor position, counted in characters.
    pub fn cursor(&self) -> (pos: usize)
        ensures
            pos == self@.cursor,
    {
        self.cursor
    }

    /// The number of characters in the text.
    pub fn char_count(&self) -> (n: usize)
        ensures
            n == self@.text.len(),
    {
        self.chars.len()
    }
}

} // verus!
