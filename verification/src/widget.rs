//! The input box: what it shows of a text field and where its cursor goes.

use crate::input::InputState;
use crate::text::push_char;
use unicode_width::UnicodeWidthStr;
use vstd::prelude::*;

verus! {

/// The frame of a widget, of the `ratatui` crate. An input box carries the
/// frame it was given to the screen and reads nothing in it.
#[verifier::external_type_specification]
#[verifier::external_body]
pub struct ExBlock<'a>(ratatui::widgets::Block<'a>);

/// Number of terminal columns that a text takes, as the `unicode-width`
/// crate counts them.
pub uninterp spec fn display_width(text: Seq<char>) -> nat;

/// Counts the columns of `text` with `UnicodeWidthStr::width`, whose result
/// depends on the characters of the text alone.
#[verifier::external_body]
fn text_width(text: &str) -> (width: usize)
    ensures
        width == display_width(text@),
{
    text.width()
}

/// The character shown in place of each character of a password.
pub const MASK: char = '•';

/// A text of `len` mask characters.
pub open spec fn mask(len: nat) -> Seq<char> {
    Seq::new(len, |i: int| MASK)
}

/// A text of `len` mask characters.
pub fn masked(len: usize) -> (text: String)
    ensures
        text@ == mask(len as nat),
{
    let mut text = String::new();
    let mut i: usize = 0;
    while i < len
        invariant
            i <= len,
            text@ == mask(i as nat),
        decreases len - i,
    {
        push_char(&mut text, MASK);
        i += 1;
        assert(text@ =~= mask(i as nat));
    }
    text
}

/// An input box: how a text field is to be drawn.
pub struct Input {
    /// The title.
    pub label: String,
    /// What an empty box shows while it is not focused.
    pub placeholder: String,
    /// Whether the text is a password, to be masked.
    pub is_password: bool,
    /// Whether the box has the focus.
    pub focused: bool,
    /// The frame, where the default frame is not wanted.
    pub block: Option<ratatui::widgets::Block<'static>>,
}

impl Default for Input {
    /// The same as [`Input::new`].
    fn default() -> (input: Self)
        ensures
            input.label@.len() == 0,
            input.placeholder@.len() == 0,
            !input.is_password,
            !input.focused,
            input.block.is_none(),
    {
        Input::new()
    }
}

impl Input {
    /// A box without title, placeholder, focus or frame, for plain text.
    pub fn new() -> (input: Self)
        ensures
            input.label@.len() == 0,
            input.placeholder@.len() == 0,
            !input.is_password,
            !input.focused,
            input.block.is_none(),
    {
        Input {
            label: String::new(),
            placeholder: String::new(),
            is_password: false,
            focused: false,
            block: None,
        }
    }

    /// The same box with `label` as its title.
    pub fn label(self, label: &str) -> (input: Self)
        ensures
            input.label@ == label@,
            input.placeholder == self.placeholder,
            input.is_password == self.is_password,
            input.focused == self.focused,
            input.block == self.block,
    {
        Input {
            label: label.to_owned(),
            placeholder: self.placeholder,
            is_password: self.is_password,
            focused: self.focused,
            block: self.block,
        }
    }

    /// The same box with `placeholder` as its placeholder.
    pub fn placeholder(self, placeholder: &str) -> (input: Self)
        ensures
            input.label == self.label,
            input.placeholder@ == placeholder@,
            input.is_password == self.is_password,
            input.focused == self.focused,
            input.block == self.block,
    {
        Input {
            label: self.label,
            placeholder: placeholder.to_owned(),
            is_password: self.is_password,
            focused: self.focused,
            block: self.block,
        }
    }

    /// The same box for a password, or for plain text.
    pub fn password(self, is_password: bool) -> (input: Self)
        ensures
            input == (Input { is_password, ..self }),
    {
        Input {
            label: self.label,
            placeholder: self.placeholder,
            is_password,
            focused: self.focused,
            block: self.block,
        }
    }

    /// The same box with or without the focus.
    pub fn focused(self, focused: bool) -> (input: Self)
        ensures
            input == (Input { focused, ..self }),
    {
        Input {
            label: self.label,
            placeholder: self.placeholder,
            is_password: self.is_password,
            focused,
            block: self.block,
        }
    }

    /// The same box with `block` as its frame.
    pub fn block(self, block: ratatui::widgets::Block<'static>) -> (input: Self)
        ensures
            input == (Input { block: Some(block), ..self }),
    {
        Input {
            label: self.label,
            placeholder: self.placeholder,
            is_password: self.is_password,
            focused: self.focused,
            block: Some(block),
        }
    }

    /// Whether the box shows its placeholder, in the placeholder's style:
    /// the field is empty and the box is not focused.
    pub open spec fn placeholder_shown(&self, value: Seq<char>) -> bool {
        value.len() == 0 && !self.focused
    }

    /// The text that the box shows for a field that holds `value`: the
    /// placeholder where that is shown, a mask of the same length for a
    /// password, and else the value.
    pub open spec fn shown_text(&self, value: Seq<char>) -> Seq<char> {
        if self.placeholder_shown(value) {
            self.placeholder@
        } else if self.is_password {
            mask(value.len())
        } else {
            value
        }
    }

    /// The part of the shown text that stands before the cursor.
    pub open spec fn text_before(&self, value: Seq<char>, cursor: nat) -> Seq<char> {
        if self.is_password {
            mask(cursor)
        } else if cursor < value.len() {
            value.take(cursor as int)
        } else {
            value
        }
    }

    /// Whether the box shows its placeholder, in the placeholder's style.
    pub fn shows_placeholder(&self, state: &InputState) -> (yes: bool)
        ensures
            yes == self.placeholder_shown(state@.text),
    {
        state.is_empty() && !self.focused
    }

    /// The text that the box shows for `state`.
    pub fn display_text(&self, state: &InputState) -> (text: String)
        ensures
            text@ == self.shown_text(state@.text),
    {
        if state.is_empty() && !self.focused {
            self.placeholder.clone()
        } else if self.is_password {
            masked(state.value.as_str().unicode_len())
        } else {
            state.value.clone()
        }
    }

    /// The shown text that stands before the cursor of `state`.
    pub fn text_before_cursor(&self, state: &InputState) -> (text: String)
        ensures
            text@ == self.text_before(state@.text, state@.cursor),
    {
        if self.is_password {
            masked(state.cursor_position)
        } else {
            let len = state.value.as_str().unicode_len();
            if state.cursor_position < len {
                state.value.as_str().substring_char(0, state.cursor_position).to_owned()
            } else {
                state.value.clone()
            }
        }
    }

    /// The cell of the cursor for `state` in a box whose area starts at
    /// column `area_x` and row `area_y` and is `area_width` columns wide:
    /// none without the focus, and else the cell that
    /// [`cursor_cell_at`] gives for the columns that the text before the
    /// cursor takes.
    pub fn cursor_cell(
        &self,
        state: &InputState,
        area_x: u16,
        area_y: u16,
        area_width: u16,
    ) -> (cell: Option<(u16, u16)>)
        requires
            area_x + area_width <= u16::MAX,
            area_y < u16::MAX,
        ensures
            cell == if self.focused {
                cursor_cell_for(
                    display_width(self.text_before(state@.text, state@.cursor)),
                    area_x,
                    area_y,
                    area_width,
                )
            } else {
                None
            },
    {
        if self.focused {
            let before = self.text_before_cursor(state);
            cursor_cell_at(text_width(before.as_str()), area_x, area_y, area_width)
        } else {
            None
        }
    }
}

/// The cell of a cursor that stands `width` columns into the text of a
/// box: one row below the top of the area and one column right of its left
/// edge, for the frame, plus the width; none where that column is not left
/// of the last column of the area, which belongs to the frame. The area is
/// one of a screen: its right edge and the row below its top can be
/// numbered.
pub open spec fn cursor_cell_for(
    width: nat,
    area_x: u16,
    area_y: u16,
    area_width: u16,
) -> Option<(u16, u16)> {
    let inner_end = if area_width > 0 {
        area_x + area_width - 1
    } else {
        area_x as int
    };
    if area_x + 1 + width < inner_end {
        Some(((area_x + 1 + width) as u16, (area_y + 1) as u16))
    } else {
        None
    }
}

/// The cell of a cursor that stands `width` columns into the text of a box.
pub fn cursor_cell_at(
    width: usize,
    area_x: u16,
    area_y: u16,
    area_width: u16,
) -> (cell: Option<(u16, u16)>)
    requires
        area_x + area_width <= u16::MAX,
        area_y < u16::MAX,
    ensures
        cell == cursor_cell_for(width as nat, area_x, area_y, area_width),
        cell.is_some() ==> area_x < cell.unwrap().0 && cell.unwrap().0 + 1 < area_x + area_width,
{
    let room: u16 = if area_width > 2 {
        area_width - 2
    } else {
        0
    };
    if width < room as usize {
        Some((area_x + 1 + (width as u16), area_y + 1))
    } else {
        None
    }
}

} // verus!
