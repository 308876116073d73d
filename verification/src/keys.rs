//! What a key press does: the change of the state and the request, if any,
//! that the program around the state is to send to the server.

use crate::app::{App, LoginState, MessageType, ResultsState, SearchState};
use crate::navigation::{Screen, ScreenId};
use vstd::prelude::*;

verus! {

/// The keys that the client tells apart.
#[derive(Debug, Clone, Copy, PartialEq, Eq, Structural)]
pub enum KeyCode {
    Char(char),
    Enter,
    Tab,
    BackTab,
    Backspace,
    Esc,
    Up,
    Down,
    /// Any other key.
    Other,
}

/// A key press.
#[derive(Debug, Clone, Copy, PartialEq, Eq, Structural)]
pub struct KeyEvent {
    pub code: KeyCode,
    /// Whether Control, and no other modifier, was held.
    pub control: bool,
}

/// An operation for the background: the program around the state sends it
/// to the server and reports the outcome with the messages that
/// [`login_messages`](crate::app::login_messages) and
/// [`search_messages`](crate::app::search_messages) give for it.
#[derive(Debug)]
pub enum Request {
    /// Log in with these credentials.
    Login { email: String, password: String },
    /// Fetch one page of the results of a search.
    Search { query: String, page: usize, page_size: usize, cities: Vec<String> },
}

/// What a key press asks of the program around the state.
#[derive(Debug)]
pub struct Outcome {
    /// The client is to end.
    pub quit: bool,
    /// An operation is to be started.
    pub request: Option<Request>,
}

/// Shortest query, in bytes, that is searched for.
pub const MIN_QUERY_BYTES: usize = 3;

/// The request for page `page` of the search that `app` holds.
pub open spec fn is_search_request(app: App, page: usize, request: Option<Request>) -> bool {
    match request {
        Some(Request::Search { query, page: p, page_size, cities }) => {
            &&& query == app.search_state.query.value
            &&& p == page
            &&& page_size == app.config.ui.page_size
            &&& cities@ == app.search_state.selected_cities@
        },
        _ => false,
    }
}

/// The field to which the login form sends a typed character.
pub open spec fn login_focus_is_email(state: LoginState) -> bool {
    state.focused_field == 0
}

/// What a key does on the login screen.
pub open spec fn login_step(pre: App, key: KeyEvent, post: App, request: Option<Request>) -> bool {
    if pre.loading {
        post == pre && request.is_none()
    } else {
        match key.code {
            KeyCode::Tab => {
                &&& request.is_none()
                &&& post == (App {
                    login_state: LoginState {
                        focused_field: if pre.login_state.focused_field % 2 == 0 {
                            1
                        } else {
                            0
                        },
                        ..pre.login_state
                    },
                    ..pre
                })
            },
            KeyCode::BackTab => {
                &&& request.is_none()
                &&& post == (App {
                    login_state: LoginState {
                        focused_field: if pre.login_state.focused_field == 0 {
                            1
                        } else {
                            0
                        },
                        ..pre.login_state
                    },
                    ..pre
                })
            },
            KeyCode::Enter => if pre.login_state.email@.text.len() == 0
                || pre.login_state.password@.text.len() == 0 {
                &&& request.is_none()
                &&& post == (App { status_message: post.status_message, ..pre })
                &&& post.shows("Email and password are required"@, MessageType::Error)
            } else {
                &&& request == Some(
                    Request::Login {
                        email: pre.login_state.email.value,
                        password: pre.login_state.password.value,
                    },
                )
                &&& post == (App { loading: true, status_message: None, ..pre })
            },
            KeyCode::Char(c) => {
                &&& request.is_none()
                &&& post == (App { login_state: post.login_state, ..pre })
                &&& if login_focus_is_email(pre.login_state) {
                    &&& post.login_state == (LoginState {
                        email: post.login_state.email,
                        ..pre.login_state
                    })
                    &&& post.login_state.email@ == pre.login_state.email@.insert(c)
                } else {
                    &&& post.login_state == (LoginState {
                        password: post.login_state.password,
                        ..pre.login_state
                    })
                    &&& post.login_state.password@ == pre.login_state.password@.insert(c)
                }
            },
            KeyCode::Backspace => {
                &&& request.is_none()
                &&& post == (App { login_state: post.login_state, ..pre })
                &&& if login_focus_is_email(pre.login_state) {
                    &&& post.login_state == (LoginState {
                        email: post.login_state.email,
                        ..pre.login_state
                    })
                    &&& post.login_state.email@ == pre.login_state.email@.delete_backward()
                } else {
                    &&& post.login_state == (LoginState {
                        password: post.login_state.password,
                        ..pre.login_state
                    })
                    &&& post.login_state.password@ == pre.login_state.password@.delete_backward()
                }
            },
            _ => post == pre && request.is_none(),
        }
    }
}

/// Length of a query in bytes: that of its UTF-8 form.
pub open spec fn query_bytes(query: Seq<char>) -> nat {
    vstd::utf8::encode_utf8(query).len()
}

/// The state after the query of the search form changed.
pub open spec fn query_changed(pre: App, post: App) -> bool {
    &&& post == (App { search_state: post.search_state, ..pre })
    &&& post.search_state == (SearchState { query: post.search_state.query, ..pre.search_state })
}

/// What a key does on the search screen.
pub open spec fn search_step(pre: App, key: KeyEvent, post: App, request: Option<Request>) -> bool {
    if pre.loading {
        post == pre && request.is_none()
    } else if pre.search_state.in_filter_mode {
        &&& request.is_none()
        &&& if key.code is Esc {
            post == (App {
                search_state: SearchState { in_filter_mode: false, ..pre.search_state },
                ..pre
            })
        } else {
            post == pre
        }
    } else {
        match key.code {
            KeyCode::Char(c) => {
                &&& request.is_none()
                &&& if c == '/' {
                    post == pre
                } else if c == 'f' && key.control {
                    post == (App {
                        search_state: SearchState { in_filter_mode: true, ..pre.search_state },
                        ..pre
                    })
                } else {
                    &&& query_changed(pre, post)
                    &&& post.search_state.query@ == pre.search_state.query@.insert(c)
                }
            },
            KeyCode::Enter => if query_bytes(pre.search_state.query.value@) < MIN_QUERY_BYTES {
                &&& request.is_none()
                &&& post == (App { status_message: post.status_message, ..pre })
                &&& post.shows("Search query must be at least 3 characters"@, MessageType::Error)
            } else {
                &&& is_search_request(pre, 1, request)
                &&& post == (App { loading: true, status_message: None, ..pre })
            },
            KeyCode::Backspace => {
                &&& request.is_none()
                &&& query_changed(pre, post)
                &&& post.search_state.query@ == pre.search_state.query@.delete_backward()
            },
            _ => post == pre && request.is_none(),
        }
    }
}

/// The state after the result list went to row `selected`.
pub open spec fn row_selected(pre: App, selected: usize, post: App) -> bool {
    post == (App {
        results_state: ResultsState { selected_index: selected, ..pre.results_state },
        ..pre
    })
}

/// The state after page `page` of the results was asked for.
pub open spec fn page_requested(pre: App, page: usize, post: App, request: Option<Request>) -> bool {
    &&& is_search_request(pre, page, request)
    &&& post == (App {
        loading: true,
        results_state: ResultsState { current_page: page, ..pre.results_state },
        ..pre
    })
}

/// What a key does on the results screen.
pub open spec fn results_step(pre: App, key: KeyEvent, post: App, request: Option<Request>) -> bool {
    let rows = pre.results_state.companies@.len();
    let selected = pre.results_state.selected_index;
    let down = key.code is Down || key.code == KeyCode::Char('j');
    let up = key.code is Up || key.code == KeyCode::Char('k');
    if pre.loading {
        post == pre && request.is_none()
    } else if down {
        &&& request.is_none()
        &&& if selected + 1 < rows {
            row_selected(pre, (selected + 1) as usize, post)
        } else {
            post == pre
        }
    } else if up {
        &&& request.is_none()
        &&& if selected > 0 {
            row_selected(pre, (selected - 1) as usize, post)
        } else {
            post == pre
        }
    } else if key.code == KeyCode::Char('g') {
        request.is_none() && row_selected(pre, 0, post)
    } else if key.code == KeyCode::Char('G') {
        &&& request.is_none()
        &&& row_selected(
            pre,
            if rows > 0 {
                (rows - 1) as usize
            } else {
                0
            },
            post,
        )
    } else if key.code == KeyCode::Char('n') {
        if pre.results_state.current_page < pre.results_state.pages() {
            page_requested(pre, (pre.results_state.current_page + 1) as usize, post, request)
        } else {
            post == pre && request.is_none()
        }
    } else if key.code == KeyCode::Char('p') {
        if pre.results_state.current_page > 1 {
            page_requested(pre, (pre.results_state.current_page - 1) as usize, post, request)
        } else {
            post == pre && request.is_none()
        }
    } else if key.code == KeyCode::Char('/') {
        &&& request.is_none()
        &&& post == (App { navigation: post.navigation, ..pre })
        &&& post.navigation@ == pre.navigation@.pop()
    } else {
        post == pre && request.is_none()
    }
}

/// Whether a key ends the client: `q` anywhere but on the login screen, and
/// `c` with Control everywhere.
pub open spec fn is_quit_key(app: App, key: KeyEvent) -> bool {
    ||| key.code == KeyCode::Char('q') && app.navigation@.current != ScreenId::Login
    ||| key.code == KeyCode::Char('c') && key.control
}

/// What a key does: the keys that work on every screen first, then those of
/// the visible screen.
pub open spec fn input_step(pre: App, key: KeyEvent, post: App, outcome: Outcome) -> bool {
    if is_quit_key(pre, key) {
        &&& outcome.quit
        &&& outcome.request.is_none()
        &&& post == (App { should_quit: true, ..pre })
    } else if key.code is Esc {
        &&& !outcome.quit
        &&& outcome.request.is_none()
        &&& if pre.navigation@.can_go_back() {
            &&& post == (App { navigation: post.navigation, status_message: None, ..pre })
            &&& post.navigation@ == pre.navigation@.pop()
        } else {
            post == pre
        }
    } else {
        &&& !outcome.quit
        &&& match pre.navigation@.current {
            ScreenId::Login => login_step(pre, key, post, outcome.request),
            ScreenId::Search => search_step(pre, key, post, outcome.request),
            ScreenId::Results => results_step(pre, key, post, outcome.request),
            _ => post == pre && outcome.request.is_none(),
        }
    }
}

/// Applies a key press: the keys that work on every screen, then those of
/// the visible screen.
pub fn handle_input(app: &mut App, key: KeyEvent) -> (outcome: Outcome)
    requires
        old(app).wf(),
    ensures
        input_step(*old(app), key, *final(app), outcome),
        final(app).wf(),
{
    let on_login = matches!(app.navigation.current, Screen::Login);
    let quits = match key.code {
        KeyCode::Char(c) => (c == 'q' && !on_login) || (c == 'c' && key.control),
        _ => false,
    };
    if quits {
        app.quit();
        return Outcome { quit: true, request: None };
    }
    if matches!(key.code, KeyCode::Esc) {
        if app.navigation.can_go_back() {
            app.navigation.pop();
            app.clear_message();
        }
        return Outcome { quit: false, request: None };
    }
    let request = if on_login {
        handle_login_input(app, key)
    } else if matches!(app.navigation.current, Screen::Search) {
        handle_search_input(app, key)
    } else if matches!(app.navigation.current, Screen::Results) {
        handle_results_input(app, key)
    } else {
        None
    };
    Outcome { quit: false, request }
}

/// Applies a key press on the login screen. While an operation is under
/// way nothing happens. Enter asks for a login where both fields are
/// filled, and reports the missing input where one is empty.
pub fn handle_login_input(app: &mut App, key: KeyEvent) -> (request: Option<Request>)
    requires
        old(app).wf(),
    ensures
        login_step(*old(app), key, *final(app), request),
        final(app).wf(),
{
    if app.loading {
        return None;
    }
    match key.code {
        KeyCode::Tab => {
            app.login_state.focused_field = if app.login_state.focused_field % 2 == 0 {
                1
            } else {
                0
            };
            None
        },
        KeyCode::BackTab => {
            app.login_state.focused_field = if app.login_state.focused_field == 0 {
                1
            } else {
                0
            };
            None
        },
        KeyCode::Enter => {
            if app.login_state.email.is_empty() || app.login_state.password.is_empty() {
                app.set_error_message("Email and password are required");
                return None;
            }
            let email = app.login_state.email.value.clone();
            let password = app.login_state.password.value.clone();
            app.loading = true;
            app.clear_message();
            Some(Request::Login { email, password })
        },
        KeyCode::Char(c) => {
            if app.login_state.focused_field == 0 {
                app.login_state.email.insert_char(c);
            } else {
                app.login_state.password.insert_char(c);
            }
            None
        },
        KeyCode::Backspace => {
            if app.login_state.focused_field == 0 {
                app.login_state.email.delete_char();
            } else {
                app.login_state.password.delete_char();
            }
            None
        },
        _ => None,
    }
}

/// Applies a key press on the search screen. While an operation is under
/// way nothing happens. Enter asks for the first page of results where the
/// query is long enough, and reports a query that is too short.
pub fn handle_search_input(app: &mut App, key: KeyEvent) -> (request: Option<Request>)
    requires
        old(app).wf(),
    ensures
        search_step(*old(app), key, *final(app), request),
        final(app).wf(),
{
    if app.loading {
        return None;
    }
    if app.search_state.in_filter_mode {
        if matches!(key.code, KeyCode::Esc) {
            app.search_state.in_filter_mode = false;
        }
        return None;
    }
    match key.code {
        KeyCode::Char(c) => {
            if c == '/' {
            } else if c == 'f' && key.control {
                app.search_state.in_filter_mode = true;
            } else {
                app.search_state.query.insert_char(c);
            }
            None
        },
        KeyCode::Enter => {
            if app.search_state.query.value.as_str().as_bytes().len() < MIN_QUERY_BYTES {
                app.set_error_message("Search query must be at least 3 characters");
                return None;
            }
            let request = search_request(app, 1);
            app.loading = true;
            app.clear_message();
            Some(request)
        },
        KeyCode::Backspace => {
            app.search_state.query.delete_char();
            None
        },
        _ => None,
    }
}

/// Applies a key press on the results screen. While an operation is under
/// way nothing happens. `n` and `p` ask for the next and the previous page
/// where there is one.
pub fn handle_results_input(app: &mut App, key: KeyEvent) -> (request: Option<Request>)
    requires
        old(app).wf(),
    ensures
        results_step(*old(app), key, *final(app), request),
        final(app).wf(),
{
    if app.loading {
        return None;
    }
    let rows = app.results_state.companies.len();
    let last_row: usize = if rows > 0 {
        rows - 1
    } else {
        0
    };
    match key.code {
        KeyCode::Down => {
            if app.results_state.selected_index < last_row {
                app.results_state.selected_index += 1;
            }
            None
        },
        KeyCode::Up => {
            if app.results_state.selected_index > 0 {
                app.results_state.selected_index -= 1;
            }
            None
        },
        KeyCode::Char(c) => {
            if c == 'j' {
                if app.results_state.selected_index < last_row {
                    app.results_state.selected_index += 1;
                }
                None
            } else if c == 'k' {
                if app.results_state.selected_index > 0 {
                    app.results_state.selected_index -= 1;
                }
                None
            } else if c == 'g' {
                app.results_state.selected_index = 0;
                None
            } else if c == 'G' {
                app.results_state.selected_index = last_row;
                None
            } else if c == 'n' {
                if app.results_state.can_go_next() {
                    let page = app.results_state.current_page + 1;
                    Some(load_page(app, page))
                } else {
                    None
                }
            } else if c == 'p' {
                if app.results_state.can_go_previous() {
                    let page = app.results_state.current_page - 1;
                    Some(load_page(app, page))
                } else {
                    None
                }
            } else if c == '/' {
                app.navigation.pop();
                None
            } else {
                None
            }
        },
        _ => None,
    }
}

/// The request for page `page` of the search that `app` holds.
fn search_request(app: &App, page: usize) -> (request: Request)
    ensures
        is_search_request(*app, page, Some(request)),
{
    let cities = app.search_state.selected_cities.clone();
    assert(cities@ =~= app.search_state.selected_cities@);
    Request::Search {
        query: app.search_state.query.value.clone(),
        page,
        page_size: app.config.ui.page_size,
        cities,
    }
}

/// Turns to page `page` of the results: the wait begins, and the request
/// for that page is returned.
pub fn load_page(app: &mut App, page: usize) -> (request: Request)
    ensures
        page_requested(*old(app), page, *final(app), Some(request)),
        old(app).wf() ==> final(app).wf(),
{
    let request = search_request(app, page);
    app.loading = true;
    app.results_state.current_page = page;
    request
}

/// The guard against a second operation: while one is under way, no key
/// starts another, and the keys of a screen change nothing at all.
pub proof fn lemma_busy_guard(pre: App, key: KeyEvent, post: App, outcome: Outcome)
    requires
        pre.loading,
    ensures
        input_step(pre, key, post, outcome) ==> outcome.request.is_none(),
        login_step(pre, key, post, outcome.request) ==> post == pre && outcome.request.is_none(),
        search_step(pre, key, post, outcome.request) ==> post == pre && outcome.request.is_none(),
        results_step(pre, key, post, outcome.request) ==> post == pre && outcome.request.is_none(),
{
}

/// A key that starts an operation begins the wait, so that the guard holds
/// against the next key.
pub proof fn lemma_request_begins_wait(pre: App, key: KeyEvent, post: App, outcome: Outcome)
    requires
        input_step(pre, key, post, outcome),
        outcome.request.is_some(),
    ensures
        !pre.loading,
        post.loading,
{
}

/// Of two keys in a row, with no message folded between them, at most the
/// first starts an operation: where it did, the second starts none, and the
/// wait goes on.
pub proof fn lemma_second_submission_rejected(
    pre: App,
    first: KeyEvent,
    mid: App,
    started: Outcome,
    second: KeyEvent,
    post: App,
    outcome: Outcome,
)
    requires
        input_step(pre, first, mid, started),
        started.request.is_some(),
        input_step(mid, second, post, outcome),
    ensures
        outcome.request.is_none(),
        post.loading,
{
}

/// A login with an empty field is refused on the spot: no operation starts,
/// the wait does not begin, and the status line names the missing input.
pub proof fn lemma_login_needs_both_fields(pre: App, control: bool, post: App, request: Option<Request>)
    requires
        !pre.loading,
        pre.login_state.email@.text.len() == 0 || pre.login_state.password@.text.len() == 0,
        login_step(pre, KeyEvent { code: KeyCode::Enter, control }, post, request),
    ensures
        request.is_none(),
        !post.loading,
        post.shows("Email and password are required"@, MessageType::Error),
{
}

} // verus!
