use bizray_tui::app::{
    login_messages, search_messages, AccountMode, App, AppMessage, MessageType, ResultsState,
};
use bizray_tui::error::BizrayError;
use bizray_tui::models::{AuthResponse, Company, CompanySummary, SearchResponse, User};
use bizray_tui::navigation::Screen;
use bizray_tui::settings::Settings;

fn user(name: &str) -> User {
    User {
        id: 7,
        uuid: "u-7".to_string(),
        username: name.to_string(),
        email: "a@b.c".to_string(),
        role: "registered".to_string(),
        registered_at: "2024-01-01".to_string(),
    }
}

fn summary(name: &str) -> CompanySummary {
    CompanySummary {
        firmenbuchnummer: "FN1".to_string(),
        name: name.to_string(),
        legal_form: None,
        business_purpose: None,
        seat: None,
        risk_score: None,
    }
}

fn company(name: &str) -> Company {
    Company {
        firmenbuchnummer: "FN1".to_string(),
        name: name.to_string(),
        legal_form: None,
        business_purpose: None,
        seat: None,
        address: None,
        partners: Vec::new(),
        registry_entries: Vec::new(),
        risk_score: None,
        risk_indicators: Vec::new(),
        reference_date: None,
    }
}

fn fresh() -> App {
    App::new(Settings::default()).unwrap()
}

#[test]
fn test_results_state_pagination() {
    let mut state = ResultsState::default();
    state.total = 100;
    state.page_size = 12;
    state.current_page = 1;

    assert_eq!(state.total_pages(), 9);
    assert!(state.can_go_next());
    assert!(!state.can_go_previous());

    state.current_page = 5;
    assert!(state.can_go_next());
    assert!(state.can_go_previous());

    state.current_page = 9;
    assert!(!state.can_go_next());
    assert!(state.can_go_previous());
}

#[test]
fn test_results_state_empty() {
    let state = ResultsState::default();
    assert_eq!(state.total_pages(), 0);
    assert!(!state.can_go_next());
    assert!(!state.can_go_previous());
}

#[test]
fn results_state_page_counts() {
    let mut state = ResultsState::default();
    for (total, size, pages) in [(1, 12, 1), (12, 12, 1), (13, 12, 2), (24, 12, 2), (25, 1, 25), (7, 100, 1)] {
        state.total = total;
        state.page_size = size;
        assert_eq!(state.total_pages(), pages);
    }
    state.total = 0;
    state.page_size = 1;
    assert_eq!(state.total_pages(), 0);
}

#[test]
fn app_starts_on_login_without_credential() {
    let app = fresh();
    assert_eq!(*app.navigation.current(), Screen::Login);
    assert!(!app.navigation.can_go_back());
    assert!(!app.is_authenticated());
    assert!(!app.loading);
    assert!(!app.should_quit);
    assert!(app.status_message.is_none());
    assert!(app.user.is_none());
    assert_eq!(app.results_state.current_page, 1);
    assert_eq!(app.results_state.page_size, 12);
    assert_eq!(app.login_state.focused_field, 0);
    assert_eq!(app.account_state.mode, AccountMode::View);
    assert_eq!(app.api_client.base_url, "https://apibizray.bnbdevelopment.hu");
    assert_eq!(app.api_client.timeout_seconds, 30);
}

#[test]
fn app_starts_on_search_with_stored_credential() {
    let mut settings = Settings::default();
    settings.auth.token = "stored".to_string();
    let app = App::new(settings).unwrap();
    assert_eq!(*app.navigation.current(), Screen::Search);
    assert_eq!(app.api_client.token, Some("stored".to_string()));
    assert!(!app.is_authenticated());
}

#[test]
fn fold_auth_success_logs_in_and_forgets_history() {
    let mut app = fresh();
    app.navigation.push(Screen::Register);
    app.set_error_message("wrong password");
    app.handle_message(AppMessage::AuthSuccess { token: "tok".to_string(), user: user("ann") });
    assert!(app.is_authenticated());
    assert_eq!(app.api_client.token, Some("tok".to_string()));
    assert_eq!(app.config.auth.token, "tok");
    assert_eq!(app.user.as_ref().unwrap().username, "ann");
    assert_eq!(*app.navigation.current(), Screen::Search);
    assert!(!app.navigation.can_go_back());
    assert_eq!(app.status_message, Some(("Login successful!".to_string(), MessageType::Success)));
}

#[test]
fn fold_results_resets_cursor_and_ends_wait() {
    let mut app = fresh();
    app.navigation.reset(Screen::Search);
    app.loading = true;
    app.results_state.selected_index = 5;
    app.results_state.scroll_offset = 3;
    app.results_state.current_page = 2;
    app.handle_message(AppMessage::SearchResults(SearchResponse {
        companies: vec![summary("A"), summary("B")],
        total: 30,
    }));
    assert_eq!(app.results_state.selected_index, 0);
    assert_eq!(app.results_state.scroll_offset, 0);
    assert_eq!(app.results_state.companies.len(), 2);
    assert_eq!(app.results_state.companies[1].name, "B");
    assert_eq!(app.results_state.total, 30);
    assert_eq!(app.results_state.current_page, 2);
    assert!(!app.loading);
    assert_eq!(*app.navigation.current(), Screen::Results);
    assert_eq!(app.navigation.history_len(), 1);

    app.results_state.selected_index = 1;
    app.handle_message(AppMessage::SearchResults(SearchResponse {
        companies: vec![summary("C")],
        total: 1,
    }));
    assert_eq!(app.results_state.selected_index, 0);
    assert_eq!(app.results_state.companies[0].name, "C");
    assert_eq!(app.navigation.history_len(), 1);
}

#[test]
fn fold_stale_results_after_leaving_are_still_shown() {
    let mut app = fresh();
    app.navigation.reset(Screen::Search);
    app.handle_message(AppMessage::SearchResults(SearchResponse {
        companies: vec![summary("first")],
        total: 1,
    }));
    assert!(app.navigation.pop());
    assert_eq!(*app.navigation.current(), Screen::Search);
    app.handle_message(AppMessage::SearchResults(SearchResponse {
        companies: vec![summary("late")],
        total: 1,
    }));
    assert_eq!(*app.navigation.current(), Screen::Results);
    assert_eq!(app.results_state.companies[0].name, "late");
    assert_eq!(app.results_state.selected_index, 0);
}

#[test]
fn fold_details_user_and_messages() {
    let mut app = fresh();
    app.loading = true;
    app.handle_message(AppMessage::CompanyDetails(company("ACME")));
    assert_eq!(app.details_state.company.as_ref().unwrap().name, "ACME");
    assert!(!app.loading);

    app.handle_message(AppMessage::UserUpdated(user("bob")));
    assert_eq!(app.user.as_ref().unwrap().username, "bob");
    assert_eq!(
        app.status_message,
        Some(("Account updated successfully!".to_string(), MessageType::Success))
    );

    app.loading = true;
    app.handle_message(AppMessage::Error("no route".to_string()));
    assert_eq!(app.status_message, Some(("no route".to_string(), MessageType::Error)));
    assert!(app.loading);
    app.handle_message(AppMessage::Loading(false));
    assert!(!app.loading);
    app.handle_message(AppMessage::Success("saved".to_string()));
    assert_eq!(app.status_message, Some(("saved".to_string(), MessageType::Success)));
    app.handle_message(AppMessage::Loading(true));
    assert!(app.loading);
}

#[test]
fn authentication_needs_user_and_credential() {
    let mut app = fresh();
    assert!(!app.is_authenticated());
    app.user = Some(user("ann"));
    assert!(!app.is_authenticated());
    app.api_client.set_token("tok".to_string());
    assert!(app.is_authenticated());
    app.user = None;
    assert!(!app.is_authenticated());
}

#[test]
fn logout_forgets_user_credential_and_history() {
    let mut app = fresh();
    app.handle_message(AppMessage::AuthSuccess { token: "tok".to_string(), user: user("ann") });
    app.navigation.push(Screen::Account);
    app.logout();
    assert!(!app.is_authenticated());
    assert!(app.user.is_none());
    assert!(!app.api_client.has_token());
    assert!(!app.config.is_authenticated());
    assert_eq!(*app.navigation.current(), Screen::Login);
    assert!(!app.navigation.can_go_back());
    assert_eq!(
        app.status_message,
        Some(("Logged out successfully".to_string(), MessageType::Info))
    );
}

#[test]
fn messages_replace_each_other() {
    let mut app = fresh();
    app.set_message("careful".to_string(), MessageType::Warning);
    assert_eq!(app.status_message, Some(("careful".to_string(), MessageType::Warning)));
    app.set_info_message("fyi");
    assert_eq!(app.status_message, Some(("fyi".to_string(), MessageType::Info)));
    app.set_error_message("bad");
    assert_eq!(app.status_message, Some(("bad".to_string(), MessageType::Error)));
    app.set_success_message("good");
    assert_eq!(app.status_message, Some(("good".to_string(), MessageType::Success)));
    app.clear_message();
    assert!(app.status_message.is_none());
    app.quit();
    assert!(app.should_quit);
}

#[test]
fn results_state_without_results_has_no_pages_whatever_the_page_size() {
    let mut state = ResultsState::default();
    state.page_size = 0;
    assert_eq!(state.total_pages(), 0);
    assert!(!state.can_go_next());
    assert!(!state.can_go_previous());
    assert_eq!(bizray_tui::screens::pagination_text(&state), "No results");
}

#[test]
fn login_outcome_is_reported_and_ends_the_wait() {
    let mut app = fresh();
    app.loading = true;
    let messages = login_messages(Ok(AuthResponse { token: "tok".to_string(), user: user("ann") }));
    assert_eq!(messages.len(), 2);
    assert!(matches!(
        &messages[0],
        AppMessage::AuthSuccess { token, user } if token == "tok" && user.username == "ann"
    ));
    assert!(matches!(messages[1], AppMessage::Loading(false)));
    app.handle_messages(messages);
    assert!(!app.loading);
    assert!(app.is_authenticated());
    assert_eq!(*app.navigation.current(), Screen::Search);

    let mut app = fresh();
    app.loading = true;
    let messages = login_messages(Err(BizrayError::TokenExpired));
    assert_eq!(messages.len(), 2);
    assert!(matches!(
        &messages[0],
        AppMessage::Error(text) if text == "Your session has expired. Please log in again."
    ));
    assert!(matches!(messages[1], AppMessage::Loading(false)));
    app.handle_messages(messages);
    assert!(!app.loading);
    assert!(!app.is_authenticated());
    assert_eq!(
        app.status_message,
        Some(("Your session has expired. Please log in again.".to_string(), MessageType::Error))
    );
}

#[test]
fn search_outcome_is_reported_and_ends_the_wait() {
    let mut app = fresh();
    app.navigation.reset(Screen::Search);
    app.loading = true;
    let messages =
        search_messages(Ok(SearchResponse { companies: vec![summary("A")], total: 1 }));
    assert_eq!(messages.len(), 1);
    assert!(matches!(&messages[0], AppMessage::SearchResults(r) if r.total == 1));
    app.handle_messages(messages);
    assert!(!app.loading);
    assert_eq!(app.results_state.companies[0].name, "A");
    assert_eq!(*app.navigation.current(), Screen::Results);

    app.loading = true;
    let messages = search_messages(Err(BizrayError::HttpError {
        status: 502,
        message: "bad gateway".to_string(),
    }));
    assert_eq!(messages.len(), 2);
    assert!(matches!(
        &messages[0],
        AppMessage::Error(text) if text == "Server error (502): bad gateway"
    ));
    assert!(matches!(messages[1], AppMessage::Loading(false)));
    app.handle_messages(messages);
    assert!(!app.loading);
    assert_eq!(app.results_state.companies[0].name, "A");

    let before = app.navigation.history_len();
    app.handle_messages(Vec::new());
    assert_eq!(app.navigation.history_len(), before);
}
