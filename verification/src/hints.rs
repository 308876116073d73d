//! The key hints of each screen, as pairs of a key and what it does.

use vstd::prelude::*;

verus! {

/// Keys that work on every screen.
pub const GLOBAL: [(&'static str, &'static str); 3] = [("q", "Quit"), ("?", "Help"), ("ESC", "Back")];

/// Keys of the login screen.
pub const LOGIN: [(&'static str, &'static str); 4] = [
    ("TAB", "Next"),
    ("Enter", "Submit"),
    ("Ctrl+R", "Register"),
    ("q", "Quit"),
];

/// Keys of the search screen.
pub const SEARCH: [(&'static str, &'static str); 5] = [
    ("/", "Search"),
    ("Ctrl+F", "Filter"),
    ("a", "Account"),
    ("?", "Help"),
    ("q", "Quit"),
];

/// Keys of the results screen.
pub const RESULTS: [(&'static str, &'static str); 5] = [
    ("j/k", "Navigate"),
    ("Enter", "Details"),
    ("n/p", "Page"),
    ("/", "Search"),
    ("ESC", "Back"),
];

/// Keys of the detail view.
pub const DETAILS: [(&'static str, &'static str); 5] = [
    ("j/k", "Scroll"),
    ("Tab", "Sections"),
    ("e", "Expand"),
    ("h", "Back"),
    ("ESC", "Back"),
];

/// Keys of the account screen.
pub const ACCOUNT: [(&'static str, &'static str); 5] = [
    ("p", "Password"),
    ("u", "Username"),
    ("l", "Logout"),
    ("d", "Delete"),
    ("ESC", "Back"),
];

} // verus!
