//! State core of a terminal client for a company registry.
//!
//! The crate holds the parts of the client that decide something: the
//! navigation history, the text field and list cursor that every screen
//! edits, the application state with the step that folds the outcome of a
//! background operation into it, and the key handlers, which turn a key press
//! into a state change and at most one request for the network. Around them
//! stand the records that the server sends, the requests that it takes, the
//! kinds of failure, the settings, and the texts, colors and styles of the
//! screens. Drawing, reading keys, files and the network are left to the
//! program around the crate.
//!
//! Every function is verified against its contract, but for three small
//! ones that hand a call on to `String::push`, to `urlencoding` and to
//! `unicode-width`, and state what those do. A contract speaks of a
//! state through a mathematical value: a `View` type, or a relation between
//! the state before and after. Statements about runs of steps are proof
//! functions whose names begin with `lemma_`.

pub mod api;
pub mod app;
pub mod error;
pub mod hints;
pub mod input;
pub mod keys;
pub mod list;
pub mod models;
pub mod navigation;
pub mod risk_gauge;
pub mod screens;
pub mod settings;
pub mod statusbar;
pub mod text;
pub mod theme;
pub mod widget;

pub use app::{App, AppMessage};
pub use error::BizrayError;
pub use navigation::{Navigation, Screen};
pub use settings::Settings;
