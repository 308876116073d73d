//! A single line of text with a cursor between its characters.

use crate::text::push_char;
use vstd::prelude::*;
use vstd::string::StringSliceAdditionalSpecFns;

verus! {

/// A text field as a mathematical value.
pub struct TextView {
    /// The characters of the line.
    pub text: Seq<char>,
    /// Number of characters before the cursor.
    pub cursor: nat,
}

/// One edit, as a value, for statements about runs of edits.
pub enum Edit {
    Insert(char),
    DeleteBackward,
    DeleteForward,
}

impl TextView {
    /// The empty field.
    pub open spec fn empty() -> TextView {
        TextView { text: Seq::empty(), cursor: 0 }
    }

    /// The cursor stands before a character or at the end of the line.
    pub open spec fn wf(self) -> bool {
        self.cursor <= self.text.len()
    }

    /// `c` put in at the cursor, and the cursor behind it.
    pub open spec fn insert(self, c: char) -> TextView {
        TextView { text: self.text.insert(self.cursor as int, c), cursor: self.cursor + 1 }
    }

    /// The character before the cursor taken out; nothing at the start.
    pub open spec fn delete_backward(self) -> TextView {
        if self.cursor > 0 {
            TextView {
                text: self.text.remove(self.cursor - 1),
                cursor: (self.cursor - 1) as nat,
            }
        } else {
            self
        }
    }

    /// The character at the cursor taken out; nothing at the end.
    pub open spec fn delete_forward(self) -> TextView {
        if self.cursor < self.text.len() {
            TextView { text: self.text.remove(self.cursor as int), cursor: self.cursor }
        } else {
            self
        }
    }

    /// The field after one edit.
    pub open spec fn apply(self, edit: Edit) -> TextView {
        match edit {
            Edit::Insert(c) => self.insert(c),
            Edit::DeleteBackward => self.delete_backward(),
            Edit::DeleteForward => self.delete_forward(),
        }
    }

    /// The field after the edits of `edits`, in order.
    pub open spec fn run(self, edits: Seq<Edit>) -> TextView
        decreases edits.len(),
    {
        if edits.len() == 0 {
            self
        } else {
            self.run(edits.drop_last()).apply(edits.last())
        }
    }
}

/// Number of bytes that the first `position` characters of `text` take in
/// UTF-8; that of the whole text where it has fewer characters.
pub open spec fn byte_offset(text: Seq<char>, position: nat) -> nat {
    if position < text.len() {
        vstd::utf8::encode_utf8(text.subrange(0, position as int)).len()
    } else {
        vstd::utf8::encode_utf8(text).len()
    }
}

/// The text of an input field and the place of its cursor.
pub struct InputState {
    /// The text.
    pub value: String,
    /// Number of characters, not bytes, before the cursor.
    pub cursor_position: usize,
}

impl View for InputState {
    type V = TextView;

    open spec fn view(&self) -> TextView {
        TextView { text: self.value@, cursor: self.cursor_position as nat }
    }
}

impl Clone for InputState {
    fn clone(&self) -> (res: Self)
        ensures
            res == *self,
    {
        InputState { value: self.value.clone(), cursor_position: self.cursor_position }
    }
}

impl Default for InputState {
    /// The empty field.
    fn default() -> (state: Self)
        ensures
            state@ == TextView::empty(),
    {
        InputState { value: String::new(), cursor_position: 0 }
    }
}

impl InputState {
    /// The validity of a field: the cursor is not behind the end of the text.
    pub open spec fn wf(&self) -> bool {
        self@.wf()
    }

    /// The empty field.
    pub fn new() -> (state: Self)
        ensures
            state@ == TextView::empty(),
            state.wf(),
    {
        InputState { value: String::new(), cursor_position: 0 }
    }

    /// A field that holds `value`, with the cursor at its end.
    pub fn with_value(value: String) -> (state: Self)
        ensures
            state.value == value,
            state.cursor_position == value@.len(),
            state.wf(),
    {
        let cursor_position = value.as_str().unicode_len();
        InputState { value, cursor_position }
    }

    /// Whether the field holds no text.
    pub fn is_empty(&self) -> (empty: bool)
        ensures
            empty == (self@.text.len() == 0),
    {
        self.value.as_str().is_empty()
    }

    /// Empties the field.
    pub fn clear(&mut self)
        ensures
            final(self)@ == TextView::empty(),
            final(self).wf(),
    {
        self.value = String::new();
        self.cursor_position = 0;
    }

    /// Puts `c` in at the cursor and moves the cursor behind it.
    pub fn insert_char(&mut self, c: char)
        requires
            old(self).wf(),
        ensures
            final(self)@ == old(self)@.insert(c),
            final(self).wf(),
    {
        let len = self.value.as_str().unicode_len();
        let mut text = self.value.as_str().substring_char(0, self.cursor_position).to_owned();
        push_char(&mut text, c);
        text.append(self.value.as_str().substring_char(self.cursor_position, len));
        assert(text@ =~= old(self)@.text.insert(old(self)@.cursor as int, c));
        // The new text has been counted, so its length, one more than the
        // old, is a number that a cursor can hold.
        let grown = text.as_str().unicode_len();
        assert(old(self)@.cursor + 1 <= grown);
        self.value = text;
        self.cursor_position += 1;
    }

    /// Removes the character before the cursor, as the backspace key does.
    /// At the start of the field nothing happens.
    pub fn delete_char(&mut self)
        requires
            old(self).wf(),
        ensures
            final(self)@ == old(self)@.delete_backward(),
            final(self).wf(),
            old(self).cursor_position == 0 ==> *final(self) == *old(self),
    {
        if self.cursor_position > 0 {
            let len = self.value.as_str().unicode_len();
            let mut text = self.value.as_str().substring_char(
                0,
                self.cursor_position - 1,
            ).to_owned();
            text.append(self.value.as_str().substring_char(self.cursor_position, len));
            assert(text@ =~= old(self)@.text.remove(old(self)@.cursor - 1));
            self.value = text;
            self.cursor_position -= 1;
        }
    }

    /// Removes the character at the cursor, as the delete key does. At the
    /// end of the field nothing happens.
    pub fn delete_char_forward(&mut self)
        requires
            old(self).wf(),
        ensures
            final(self)@ == old(self)@.delete_forward(),
            final(self).wf(),
            old(self).cursor_position == old(self)@.text.len() ==> *final(self) == *old(self),
    {
        let len = self.value.as_str().unicode_len();
        if self.cursor_position < len {
            let mut text = self.value.as_str().substring_char(0, self.cursor_position).to_owned();
            text.append(self.value.as_str().substring_char(self.cursor_position + 1, len));
            assert(text@ =~= old(self)@.text.remove(old(self)@.cursor as int));
            self.value = text;
        }
    }

    /// The byte at which the character at `position` starts in the UTF-8
    /// form of the text; the length of that form where `position` is at or
    /// behind the end.
    pub fn char_index_from_position(&self, position: usize) -> (index: usize)
        ensures
            index == byte_offset(self@.text, position as nat),
    {
        let len = self.value.as_str().unicode_len();
        let chars: usize = if position < len {
            position
        } else {
            len
        };
        let head = self.value.as_str().substring_char(0, chars);
        assert(self@.text.subrange(0, len as int) =~= self@.text);
        head.as_bytes().len()
    }

    /// Moves the cursor one character to the left, if it is not at the start.
    pub fn move_cursor_left(&mut self)
        ensures
            final(self).value == old(self).value,
            final(self).cursor_position == if old(self).cursor_position > 0 {
                old(self).cursor_position - 1
            } else {
                0
            },
            old(self).wf() ==> final(self).wf(),
    {
        if self.cursor_position > 0 {
            self.cursor_position -= 1;
        }
    }

    /// Moves the cursor one character to the right, if it is not at the end.
    pub fn move_cursor_right(&mut self)
        ensures
            final(self).value == old(self).value,
            final(self).cursor_position == if old(self).cursor_position < old(self)@.text.len() {
                old(self).cursor_position + 1
            } else {
                old(self).cursor_position as int
            },
            old(self).wf() ==> final(self).wf(),
    {
        let len = self.value.as_str().unicode_len();
        if self.cursor_position < len {
            self.cursor_position += 1;
        }
    }

    /// Moves the cursor to the start.
    pub fn move_cursor_to_start(&mut self)
        ensures
            final(self).value == old(self).value,
            final(self).cursor_position == 0,
            final(self).wf(),
    {
        self.cursor_position = 0;
    }

    /// Moves the cursor to the end.
    pub fn move_cursor_to_end(&mut self)
        ensures
            final(self).value == old(self).value,
            final(self).cursor_position == old(self)@.text.len(),
            final(self).wf(),
    {
        self.cursor_position = self.value.as_str().unicode_len();
    }
}

/// Each edit leaves the cursor between 0 and the length of the text.
pub proof fn lemma_edit_keeps_cursor_in_range(t: TextView, edit: Edit)
    requires
        t.wf(),
    ensures
        t.apply(edit).wf(),
        0 <= t.apply(edit).cursor <= t.apply(edit).text.len(),
{
}

/// After any run of insertions and deletions, forward or backward, the
/// cursor lies between 0 and the length of the text.
pub proof fn lemma_edits_keep_cursor_in_range(t: TextView, edits: Seq<Edit>)
    requires
        t.wf(),
    ensures
        t.run(edits).wf(),
        0 <= t.run(edits).cursor <= t.run(edits).text.len(),
    decreases edits.len(),
{
    if edits.len() > 0 {
        lemma_edits_keep_cursor_in_range(t, edits.drop_last());
        lemma_edit_keeps_cursor_in_range(t.run(edits.drop_last()), edits.last());
    }
}

/// An insertion moves the cursor one to the right and makes the text one
/// longer; a backward deletion that removes a character moves the cursor one
/// to the left; a forward deletion leaves the cursor where it is.
pub proof fn lemma_edit_moves_cursor(t: TextView, c: char)
    requires
        t.wf(),
    ensures
        t.insert(c).cursor == t.cursor + 1,
        t.insert(c).text.len() == t.text.len() + 1,
        t.insert(c).text[t.cursor as int] == c,
        t.cursor > 0 ==> t.delete_backward().cursor == t.cursor - 1
            && t.delete_backward().text.len() == t.text.len() - 1,
        t.delete_forward().cursor == t.cursor,
{
}

} // verus!
