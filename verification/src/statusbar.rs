//! The status line: a message and the key hints under it.

use vstd::prelude::*;

verus! {

/// What the status line shows.
pub struct StatusBar<'a> {
    /// The message of the first line.
    pub message: &'a str,
    /// Keys and what they do, for the second line.
    pub hints: Vec<(&'a str, &'a str)>,
    /// Whether the second line is shown.
    pub show_hints: bool,
}

impl<'a> StatusBar<'a> {
    /// A status line with `message`, no hints yet, and hints switched on.
    pub fn new(message: &'a str) -> (bar: Self)
        ensures
            bar.message == message,
            bar.hints@.len() == 0,
            bar.show_hints,
    {
        StatusBar { message, hints: Vec::new(), show_hints: true }
    }

    /// The same status line with `hints` as its hints.
    pub fn hints(self, hints: Vec<(&'a str, &'a str)>) -> (bar: Self)
        ensures
            bar.message == self.message,
            bar.hints == hints,
            bar.show_hints == self.show_hints,
    {
        StatusBar { message: self.message, hints, show_hints: self.show_hints }
    }

    /// The same status line with its hints switched on or off.
    pub fn show_hints(self, show: bool) -> (bar: Self)
        ensures
            bar.message == self.message,
            bar.hints == self.hints,
            bar.show_hints == show,
    {
        StatusBar { message: self.message, hints: self.hints, show_hints: show }
    }

    /// Whether the second line has anything to show in an area of `height`
    /// rows: there is room for it, hints are switched on, and there are
    /// some.
    pub fn shows_hint_line(&self, height: u16) -> (yes: bool)
        ensures
            yes == (height > 1 && self.show_hints && self.hints@.len() > 0),
    {
        height > 1 && self.show_hints && self.hints.len() > 0
    }
}

} // verus!
