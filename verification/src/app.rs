//! The state of the client and the step that folds the outcome of a
//! background operation into it.

use crate::api::ApiClient;
use crate::error::BizrayError;
use crate::input::{InputState, TextView};
use crate::models::{AuthResponse, Company, CompanySummary, SearchResponse, User};
use crate::navigation::{Navigation, NavigationView, Screen, ScreenId};
use crate::settings::Settings;
use std::collections::HashMap;
use vstd::prelude::*;

verus! {

/// What a background operation reports when it ends. Such a message is the
/// only way by which an operation reaches the state.
#[derive(Debug)]
pub enum AppMessage {
    /// The server accepted the credentials.
    AuthSuccess { token: String, user: User },
    /// A page of search results arrived.
    SearchResults(SearchResponse),
    /// The details of a company arrived.
    CompanyDetails(Company),
    /// The user's record changed.
    UserUpdated(User),
    /// An operation succeeded.
    Success(String),
    /// An operation failed.
    Error(String),
    /// An operation started or ended.
    Loading(bool),
}

/// How serious a status message is.
#[derive(Debug, Clone, Copy, PartialEq, Eq, Structural)]
pub enum MessageType {
    Info,
    Success,
    Warning,
    Error,
}

/// The login form.
pub struct LoginState {
    pub email: InputState,
    pub password: InputState,
    /// 0 for the email field, 1 for the password field.
    pub focused_field: usize,
}

/// The registration form.
pub struct RegisterState {
    pub username: InputState,
    pub email: InputState,
    pub password: InputState,
    /// 0 for the user name, 1 for the email field, 2 for the password field.
    pub focused_field: usize,
}

/// The search form.
pub struct SearchState {
    pub query: InputState,
    pub selected_cities: Vec<String>,
    pub available_cities: Vec<String>,
    pub in_filter_mode: bool,
}

/// The result list: the page on display and where it stands among all pages.
pub struct ResultsState {
    pub companies: Vec<CompanySummary>,
    /// Number of results on all pages, as the server reported it.
    pub total: i32,
    /// Number of the page on display, counted from 1.
    pub current_page: usize,
    pub page_size: usize,
    pub selected_index: usize,
    pub scroll_offset: usize,
}

/// The detail view.
pub struct DetailsState {
    pub company: Option<Company>,
    pub scroll_offset: usize,
    /// For each section by name, whether it is unfolded.
    pub expanded_sections: HashMap<String, bool>,
}

/// What the account screen is busy with.
#[derive(Debug, Clone, Copy, PartialEq, Eq, Structural)]
pub enum AccountMode {
    View,
    ChangePassword,
    ChangeUsername,
    DeleteAccount,
}

/// The account screen.
pub struct AccountState {
    pub current_password: InputState,
    pub new_password: InputState,
    pub confirm_password: InputState,
    pub new_username: InputState,
    pub delete_confirmation: InputState,
    pub mode: AccountMode,
}

impl Default for LoginState {
    /// The empty form with the email field focused.
    fn default() -> (state: Self)
        ensures
            state.email@ == TextView::empty(),
            state.password@ == TextView::empty(),
            state.focused_field == 0,
            state.wf(),
    {
        LoginState { email: InputState::new(), password: InputState::new(), focused_field: 0 }
    }
}

impl LoginState {
    /// Both fields are valid.
    pub open spec fn wf(&self) -> bool {
        self.email.wf() && self.password.wf()
    }
}

impl Default for RegisterState {
    /// The empty form with the first field focused.
    fn default() -> (state: Self)
        ensures
            state.username@ == TextView::empty(),
            state.email@ == TextView::empty(),
            state.password@ == TextView::empty(),
            state.focused_field == 0,
    {
        RegisterState {
            username: InputState::new(),
            email: InputState::new(),
            password: InputState::new(),
            focused_field: 0,
        }
    }
}

impl Default for SearchState {
    /// The empty form, with no city chosen or known.
    fn default() -> (state: Self)
        ensures
            state.query@ == TextView::empty(),
            state.query.wf(),
            state.selected_cities@.len() == 0,
            state.available_cities@.len() == 0,
            !state.in_filter_mode,
    {
        SearchState {
            query: InputState::new(),
            selected_cities: Vec::new(),
            available_cities: Vec::new(),
            in_filter_mode: false,
        }
    }
}

/// Number of items that a reported total stands for: the total itself where
/// it is not negative, and the number that the machine reads it as where it
/// is.
pub open spec fn item_count(total: i32) -> nat {
    (total as usize) as nat
}

/// Number of pages that `items` items fill with `page_size` on each: the
/// quotient, rounded up.
pub open spec fn page_count(items: nat, page_size: nat) -> nat {
    if items == 0 {
        0
    } else {
        ((items - 1) / (page_size as int) + 1) as nat
    }
}

impl Default for ResultsState {
    /// No results, on page 1 with 12 results per page.
    fn default() -> (state: Self)
        ensures
            state.companies@.len() == 0,
            state.total == 0,
            state.current_page == 1,
            state.page_size == 12,
            state.selected_index == 0,
            state.scroll_offset == 0,
            state.wf(),
    {
        ResultsState {
            companies: Vec::new(),
            total: 0,
            current_page: 1,
            page_size: 12,
            selected_index: 0,
            scroll_offset: 0,
        }
    }
}

impl ResultsState {
    /// A page holds at least one result.
    pub open spec fn wf(&self) -> bool {
        self.page_size > 0
    }

    /// The results can be counted in pages: there are none, or a page holds
    /// at least one.
    pub open spec fn countable(&self) -> bool {
        self.total != 0 ==> self.page_size > 0
    }

    /// Number of pages of the result.
    pub open spec fn pages(&self) -> nat {
        page_count(item_count(self.total), self.page_size as nat)
    }

    /// Number of pages of the result.
    pub fn total_pages(&self) -> (pages: usize)
        requires
            self.countable(),
        ensures
            pages == self.pages(),
            self.total >= 0 ==> pages == page_count(self.total as nat, self.page_size as nat),
            self.total == 0 ==> pages == 0,
    {
        let items = self.total as usize;
        if items == 0 {
            0
        } else {
            (items - 1) / self.page_size + 1
        }
    }

    /// Whether there is a page after the one on display.
    pub fn can_go_next(&self) -> (yes: bool)
        requires
            self.countable(),
        ensures
            yes == (self.current_page < self.pages()),
    {
        self.current_page < self.total_pages()
    }

    /// Whether there is a page before the one on display.
    pub fn can_go_previous(&self) -> (yes: bool)
        ensures
            yes == (self.current_page > 1),
    {
        self.current_page > 1
    }
}

impl Default for DetailsState {
    /// No company on display.
    fn default() -> (state: Self)
        ensures
            state.company.is_none(),
            state.scroll_offset == 0,
            state.expanded_sections@.len() == 0,
    {
        DetailsState { company: None, scroll_offset: 0, expanded_sections: HashMap::new() }
    }
}

impl Default for AccountMode {
    fn default() -> (mode: Self)
        ensures
            mode == AccountMode::View,
    {
        AccountMode::View
    }
}

impl Default for AccountState {
    /// Empty fields, nothing being changed.
    fn default() -> (state: Self)
        ensures
            state.mode == AccountMode::View,
            state.current_password@ == TextView::empty(),
            state.new_password@ == TextView::empty(),
            state.confirm_password@ == TextView::empty(),
            state.new_username@ == TextView::empty(),
            state.delete_confirmation@ == TextView::empty(),
    {
        AccountState {
            current_password: InputState::new(),
            new_password: InputState::new(),
            confirm_password: InputState::new(),
            new_username: InputState::new(),
            delete_confirmation: InputState::new(),
            mode: AccountMode::View,
        }
    }
}

/// The whole state of the client.
pub struct App {
    /// The settings.
    pub config: Settings,
    /// The connection to the server, with the credential.
    pub api_client: ApiClient,
    /// The visible screen and the history behind it.
    pub navigation: Navigation,
    /// The user who is logged in.
    pub user: Option<User>,
    /// Set when the client is to end.
    pub should_quit: bool,
    /// Set while a background operation that changes what is shown is under
    /// way.
    pub loading: bool,
    /// The message of the status line, with its severity.
    pub status_message: Option<(String, MessageType)>,
    pub login_state: LoginState,
    pub register_state: RegisterState,
    pub search_state: SearchState,
    pub results_state: ResultsState,
    pub details_state: DetailsState,
    pub account_state: AccountState,
}

impl App {
    /// The validity of the state: the history is within its bound, the
    /// fields that keys edit are valid, and a result page is not empty.
    pub open spec fn wf(&self) -> bool {
        &&& self.navigation@.wf()
        &&& self.login_state.wf()
        &&& self.search_state.query.wf()
        &&& self.results_state.wf()
    }

    /// The status line shows `text` with severity `kind`.
    pub open spec fn shows(&self, text: Seq<char>, kind: MessageType) -> bool {
        match self.status_message {
            Some(message) => message.0@ == text && message.1 == kind,
            None => false,
        }
    }

    /// The user is logged in: the user's record and the credential are both
    /// there.
    pub open spec fn authenticated(&self) -> bool {
        self.user.is_some() && self.api_client.token.is_some()
    }

    /// What folding `message` into `pre` gives: `post` is the state after.
    pub open spec fn folded(pre: App, message: AppMessage, post: App) -> bool {
        match message {
            AppMessage::AuthSuccess { token, user } => {
                &&& post == (App {
                    config: post.config,
                    api_client: post.api_client,
                    navigation: post.navigation,
                    user: Some(user),
                    status_message: post.status_message,
                    ..pre
                })
                &&& post.api_client == (ApiClient { token: Some(token), ..pre.api_client })
                &&& post.config == (Settings { auth: post.config.auth, ..pre.config })
                &&& post.config.auth.token == token
                &&& post.navigation@ == pre.navigation@.reset(ScreenId::Search)
                &&& post.shows("Login successful!"@, MessageType::Success)
            },
            AppMessage::SearchResults(response) => {
                &&& post == (App {
                    navigation: post.navigation,
                    results_state: post.results_state,
                    loading: false,
                    ..pre
                })
                &&& post.results_state == (ResultsState {
                    companies: response.companies,
                    total: response.total,
                    selected_index: 0,
                    scroll_offset: 0,
                    ..pre.results_state
                })
                &&& post.navigation@ == pre.navigation@.push(ScreenId::Results)
            },
            AppMessage::CompanyDetails(company) => {
                &&& post == (App { details_state: post.details_state, loading: false, ..pre })
                &&& post.details_state == (DetailsState {
                    company: Some(company),
                    ..pre.details_state
                })
            },
            AppMessage::UserUpdated(user) => {
                &&& post == (App {
                    user: Some(user),
                    status_message: post.status_message,
                    ..pre
                })
                &&& post.shows("Account updated successfully!"@, MessageType::Success)
            },
            AppMessage::Success(text) => {
                &&& post == (App { status_message: post.status_message, ..pre })
                &&& post.shows(text@, MessageType::Success)
            },
            AppMessage::Error(text) => {
                &&& post == (App { status_message: post.status_message, ..pre })
                &&& post.shows(text@, MessageType::Error)
            },
            AppMessage::Loading(loading) => post == (App { loading, ..pre }),
        }
    }

    /// What folding the messages of `messages` into `pre`, in order, gives:
    /// `post` is the state after the last of them.
    pub open spec fn folded_all(pre: App, messages: Seq<AppMessage>, post: App) -> bool
        decreases messages.len(),
    {
        if messages.len() == 0 {
            post == pre
        } else {
            exists|mid: App|
                App::folded_all(pre, messages.drop_last(), mid) && #[trigger] App::folded(
                    mid,
                    messages.last(),
                    post,
                )
        }
    }

    /// The state of a client that starts with `config`: on the search screen
    /// where a credential is stored, on the login screen where none is, with
    /// empty forms, no results and no user's record. Building the state never
    /// fails.
    pub fn new(config: Settings) -> (app: Result<Self, BizrayError>)
        ensures
            app is Ok,
            ({
                let app = app->Ok_0;
                &&& app.config == config
                &&& app.api_client.base_url == config.api.endpoint
                &&& app.api_client.timeout_seconds == config.api.timeout_seconds
                &&& app.api_client.token == if config.has_token() {
                    Some(config.auth.token)
                } else {
                    None
                }
                &&& app.navigation@ == NavigationView::start(
                    if config.has_token() {
                        ScreenId::Search
                    } else {
                        ScreenId::Login
                    },
                    10,
                )
                &&& app.user.is_none()
                &&& !app.should_quit
                &&& !app.loading
                &&& app.status_message.is_none()
                &&& app.login_state.email@ == TextView::empty()
                &&& app.login_state.password@ == TextView::empty()
                &&& app.login_state.focused_field == 0
                &&& app.register_state.username@ == TextView::empty()
                &&& app.register_state.email@ == TextView::empty()
                &&& app.register_state.password@ == TextView::empty()
                &&& app.register_state.focused_field == 0
                &&& app.search_state.query@ == TextView::empty()
                &&& app.search_state.selected_cities@.len() == 0
                &&& app.search_state.available_cities@.len() == 0
                &&& !app.search_state.in_filter_mode
                &&& app.results_state.companies@.len() == 0
                &&& app.results_state.total == 0
                &&& app.results_state.current_page == 1
                &&& app.results_state.page_size == 12
                &&& app.results_state.selected_index == 0
                &&& app.results_state.scroll_offset == 0
                &&& app.details_state.company.is_none()
                &&& app.details_state.scroll_offset == 0
                &&& app.details_state.expanded_sections@.len() == 0
                &&& app.account_state.current_password@ == TextView::empty()
                &&& app.account_state.new_password@ == TextView::empty()
                &&& app.account_state.confirm_password@ == TextView::empty()
                &&& app.account_state.new_username@ == TextView::empty()
                &&& app.account_state.delete_confirmation@ == TextView::empty()
                &&& app.account_state.mode == AccountMode::View
                &&& app.wf()
                &&& !app.authenticated()
            }),
    {
        let mut api_client = ApiClient {
            base_url: config.api.endpoint.clone(),
            timeout_seconds: config.api.timeout_seconds,
            token: None,
        };
        if config.is_authenticated() {
            api_client.set_token(config.auth.token.clone());
        }
        let initial_screen = if config.is_authenticated() {
            Screen::Search
        } else {
            Screen::Login
        };
        Ok(
            App {
                config,
                api_client,
                navigation: Navigation::new(initial_screen),
                user: None,
                should_quit: false,
                loading: false,
                status_message: None,
                login_state: LoginState::default(),
                register_state: RegisterState::default(),
                search_state: SearchState::default(),
                results_state: ResultsState::default(),
                details_state: DetailsState::default(),
                account_state: AccountState::default(),
            },
        )
    }

    /// Folds the outcome of a background operation into the state. Every
    /// message is accepted, whatever the state; nothing outside the state is
    /// touched.
    pub fn handle_message(&mut self, message: AppMessage)
        ensures
            App::folded(*old(self), message, *final(self)),
            old(self).wf() ==> final(self).wf(),
    {
        match message {
            AppMessage::AuthSuccess { token, user } => {
                self.api_client.set_token(token.clone());
                self.config.set_token(token);
                self.user = Some(user);
                self.navigation.reset(Screen::Search);
                self.set_success_message("Login successful!");
            },
            AppMessage::SearchResults(response) => {
                self.results_state.companies = response.companies;
                self.results_state.total = response.total;
                self.results_state.selected_index = 0;
                self.results_state.scroll_offset = 0;
                self.navigation.push(Screen::Results);
                self.loading = false;
            },
            AppMessage::CompanyDetails(company) => {
                self.details_state.company = Some(company);
                self.loading = false;
            },
            AppMessage::UserUpdated(user) => {
                self.user = Some(user);
                self.set_success_message("Account updated successfully!");
            },
            AppMessage::Success(text) => {
                self.set_success_message(text.as_str());
            },
            AppMessage::Error(text) => {
                self.set_error_message(text.as_str());
            },
            AppMessage::Loading(loading) => {
                self.loading = loading;
            },
        }
    }

    /// Folds the messages of `messages` into the state, in order.
    pub fn handle_messages(&mut self, messages: Vec<AppMessage>)
        ensures
            App::folded_all(*old(self), messages@, *final(self)),
            old(self).wf() ==> final(self).wf(),
    {
        let mut rest = messages;
        let ghost all = rest@;
        let ghost mut done: int = 0;
        while rest.len() > 0
            invariant
                0 <= done <= all.len(),
                rest@ == all.skip(done),
                App::folded_all(*old(self), all.take(done), *self),
                old(self).wf() ==> self.wf(),
            decreases rest.len(),
        {
            let ghost before = *self;
            let message = rest.remove(0);
            self.handle_message(message);
            proof {
                assert(message == all[done]);
                assert(all.take(done + 1).drop_last() =~= all.take(done));
                assert(all.take(done + 1).last() == message);
                assert(App::folded(before, all.take(done + 1).last(), *self));
                assert(rest@ =~= all.skip(done + 1));
                done = done + 1;
            }
        }
        assert(all.take(done) =~= all);
    }

    /// Puts `message` on the status line, in place of any message there.
    pub fn set_message(&mut self, message: String, msg_type: MessageType)
        ensures
            *final(self) == (App { status_message: Some((message, msg_type)), ..*old(self) }),
            final(self).shows(message@, msg_type),
    {
        self.status_message = Some((message, msg_type));
    }

    /// Puts a message of success on the status line.
    pub fn set_success_message(&mut self, message: &str)
        ensures
            *final(self) == (App { status_message: final(self).status_message, ..*old(self) }),
            final(self).shows(message@, MessageType::Success),
    {
        self.set_message(message.to_owned(), MessageType::Success);
    }

    /// Puts a message of failure on the status line.
    pub fn set_error_message(&mut self, message: &str)
        ensures
            *final(self) == (App { status_message: final(self).status_message, ..*old(self) }),
            final(self).shows(message@, MessageType::Error),
    {
        self.set_message(message.to_owned(), MessageType::Error);
    }

    /// Puts a message for information on the status line.
    pub fn set_info_message(&mut self, message: &str)
        ensures
            *final(self) == (App { status_message: final(self).status_message, ..*old(self) }),
            final(self).shows(message@, MessageType::Info),
    {
        self.set_message(message.to_owned(), MessageType::Info);
    }

    /// Empties the status line.
    pub fn clear_message(&mut self)
        ensures
            *final(self) == (App { status_message: None, ..*old(self) }),
    {
        self.status_message = None;
    }

    /// Logs the user out: the user's record and the credential, stored or
    /// presented, are forgotten, the login screen is shown with no way
    /// back, and the status line says so.
    pub fn logout(&mut self)
        ensures
            *final(self) == (App {
                config: final(self).config,
                api_client: final(self).api_client,
                navigation: final(self).navigation,
                user: None,
                status_message: final(self).status_message,
                ..*old(self)
            }),
            final(self).api_client == (ApiClient { token: None, ..old(self).api_client }),
            final(self).config == (Settings { auth: final(self).config.auth, ..old(self).config }),
            !final(self).config.has_token(),
            final(self).navigation@ == old(self).navigation@.reset(ScreenId::Login),
            final(self).shows("Logged out successfully"@, MessageType::Info),
            !final(self).authenticated(),
            old(self).wf() ==> final(self).wf(),
    {
        self.user = None;
        self.api_client.clear_token();
        self.config.clear_token();
        self.navigation.reset(Screen::Login);
        self.set_info_message("Logged out successfully");
    }

    /// Asks the client to end.
    pub fn quit(&mut self)
        ensures
            *final(self) == (App { should_quit: true, ..*old(self) }),
    {
        self.should_quit = true;
    }

    /// Whether the user is logged in: true only where the user's record and
    /// the credential are both there.
    pub fn is_authenticated(&self) -> (yes: bool)
        ensures
            yes == self.authenticated(),
            self.user.is_none() ==> !yes,
            self.api_client.token.is_none() ==> !yes,
    {
        self.user.is_some() && self.api_client.has_token()
    }
}

/// Whether `messages` are what the outcome of a login is reported with:
/// the login and the end of the wait, or the failure in the words for the
/// user and the end of the wait.
pub open spec fn login_answer(
    outcome: Result<AuthResponse, BizrayError>,
    messages: Seq<AppMessage>,
) -> bool {
    match outcome {
        Ok(auth) => messages == seq![
            AppMessage::AuthSuccess { token: auth.token, user: auth.user },
            AppMessage::Loading(false),
        ],
        Err(e) => is_failure_report(e, messages),
    }
}

/// Whether `messages` are what the outcome of a search is reported with:
/// the page of results, whose folding ends the wait, or the failure in the
/// words for the user and the end of the wait.
pub open spec fn search_answer(
    outcome: Result<SearchResponse, BizrayError>,
    messages: Seq<AppMessage>,
) -> bool {
    match outcome {
        Ok(response) => messages == seq![AppMessage::SearchResults(response)],
        Err(e) => is_failure_report(e, messages),
    }
}

/// Whether `messages` report the failure `e`: first the failure in the
/// words for the user, then the end of the wait.
pub open spec fn is_failure_report(e: BizrayError, messages: Seq<AppMessage>) -> bool {
    &&& messages.len() == 2
    &&& messages[0] matches AppMessage::Error(text) && text@ == e.user_text()
    &&& messages[1] == AppMessage::Loading(false)
}

/// The messages that report the failure `e`.
fn failure_report(e: &BizrayError) -> (messages: Vec<AppMessage>)
    ensures
        is_failure_report(*e, messages@),
{
    let mut messages: Vec<AppMessage> = Vec::new();
    messages.push(AppMessage::Error(e.user_message()));
    messages.push(AppMessage::Loading(false));
    messages
}

/// The messages that report the outcome of a login, in the order in which
/// they are to be sent. The last of them ends the wait.
pub fn login_messages(outcome: Result<AuthResponse, BizrayError>) -> (messages: Vec<AppMessage>)
    ensures
        login_answer(outcome, messages@),
{
    match outcome {
        Ok(auth) => {
            let mut messages: Vec<AppMessage> = Vec::new();
            messages.push(AppMessage::AuthSuccess { token: auth.token, user: auth.user });
            messages.push(AppMessage::Loading(false));
            assert(messages@ =~= seq![
                AppMessage::AuthSuccess { token: auth.token, user: auth.user },
                AppMessage::Loading(false),
            ]);
            messages
        },
        Err(e) => failure_report(&e),
    }
}

/// The messages that report the outcome of a search, in the order in which
/// they are to be sent. Folding them ends the wait.
pub fn search_messages(outcome: Result<SearchResponse, BizrayError>) -> (messages: Vec<
    AppMessage,
>)
    ensures
        search_answer(outcome, messages@),
{
    match outcome {
        Ok(response) => {
            let mut messages: Vec<AppMessage> = Vec::new();
            messages.push(AppMessage::SearchResults(response));
            assert(messages@ =~= seq![AppMessage::SearchResults(response)]);
            messages
        },
        Err(e) => failure_report(&e),
    }
}

/// Folding the report of a failure shows the failure on the status line,
/// ends the wait and changes nothing else.
pub proof fn lemma_failure_report_ends_wait(
    e: BizrayError,
    messages: Seq<AppMessage>,
    pre: App,
    post: App,
)
    requires
        is_failure_report(e, messages),
        App::folded_all(pre, messages, post),
    ensures
        !post.loading,
        post.shows(e.user_text(), MessageType::Error),
        post == (App { loading: false, status_message: post.status_message, ..pre }),
{
    reveal_with_fuel(App::folded_all, 3);
    let first = messages.drop_last();
    assert(first.len() == 1 && first.last() == messages[0]);
    assert(first.drop_last().len() == 0);
}

/// Whatever the outcome of a login, folding the messages that report it, in
/// order, ends the wait. After a login that succeeded the user is logged in
/// and the search screen is shown, with no way back.
pub proof fn lemma_login_answer_ends_wait(
    outcome: Result<AuthResponse, BizrayError>,
    messages: Seq<AppMessage>,
    pre: App,
    post: App,
)
    requires
        login_answer(outcome, messages),
        App::folded_all(pre, messages, post),
    ensures
        !post.loading,
        outcome is Ok ==> post.authenticated() && post.navigation@.current == ScreenId::Search
            && !post.navigation@.can_go_back(),
        outcome matches Err(e) ==> post.shows(e.user_text(), MessageType::Error),
{
    match outcome {
        Ok(auth) => {
            reveal_with_fuel(App::folded_all, 3);
            let first = messages.drop_last();
            assert(first.len() == 1 && first.last() == messages[0]);
            assert(first.drop_last().len() == 0);
        },
        Err(e) => {
            lemma_failure_report_ends_wait(e, messages, pre, post);
        },
    }
}

/// Whatever the outcome of a search, folding the messages that report it,
/// in order, ends the wait. After a search that succeeded the page that
/// arrived is shown, with the cursor on its first row.
pub proof fn lemma_search_answer_ends_wait(
    outcome: Result<SearchResponse, BizrayError>,
    messages: Seq<AppMessage>,
    pre: App,
    post: App,
)
    requires
        search_answer(outcome, messages),
        App::folded_all(pre, messages, post),
    ensures
        !post.loading,
        outcome matches Ok(response) ==> post.results_state.companies == response.companies
            && post.results_state.selected_index == 0 && post.navigation@.current
            == ScreenId::Results,
        outcome matches Err(e) ==> post.shows(e.user_text(), MessageType::Error),
{
    match outcome {
        Ok(response) => {
            reveal_with_fuel(App::folded_all, 2);
            assert(messages.last() == AppMessage::SearchResults(response));
            assert(messages.drop_last().len() == 0);
        },
        Err(e) => {
            lemma_failure_report_ends_wait(e, messages, pre, post);
        },
    }
}

/// The number of pages is the quotient of items by page size, rounded up:
/// the pages hold all items, and without the last page they would not.
pub proof fn lemma_page_count_is_ceiling(items: nat, page_size: nat)
    requires
        page_size > 0,
    ensures
        page_count(0, page_size) == 0,
        page_count(items, page_size) * page_size >= items,
        items > 0 ==> (page_count(items, page_size) - 1) * page_size < items,
{
    if items > 0 {
        let q = (items - 1) / (page_size as int);
        let r = (items - 1) % (page_size as int);
        assert(items - 1 == q * page_size + r && 0 <= r < page_size) by (nonlinear_arith)
            requires
                q == (items - 1) / (page_size as int),
                r == (items - 1) % (page_size as int),
                page_size > 0,
                items > 0,
        ;
        assert((q + 1) * page_size == q * page_size + page_size) by (nonlinear_arith);
    }
}

/// Folding a page of results puts the cursor of the result list on the first
/// row and the window at the top, shows exactly the page that arrived, and
/// ends the wait, whatever the state was.
pub proof fn lemma_results_reset_cursor(pre: App, response: SearchResponse, post: App)
    requires
        App::folded(pre, AppMessage::SearchResults(response), post),
    ensures
        post.results_state.selected_index == 0,
        post.results_state.scroll_offset == 0,
        post.results_state.companies == response.companies,
        post.results_state.total == response.total,
        !post.loading,
        post.navigation@.current == ScreenId::Results,
{
}

/// A message of success or failure changes the status line and nothing else;
/// in particular a failure leaves the wait as it was.
pub proof fn lemma_messages_leave_loading(pre: App, text: String, post: App)
    ensures
        App::folded(pre, AppMessage::Error(text), post) ==> post.loading == pre.loading
            && post.navigation == pre.navigation,
        App::folded(pre, AppMessage::Success(text), post) ==> post.loading == pre.loading
            && post.navigation == pre.navigation,
{
}

/// After a login has been folded there is no way back, and the user is
/// logged in.
pub proof fn lemma_login_resets_history(pre: App, token: String, user: User, post: App)
    requires
        App::folded(pre, AppMessage::AuthSuccess { token, user }, post),
    ensures
        post.navigation@.current == ScreenId::Search,
        !post.navigation@.can_go_back(),
        post.authenticated(),
{
}

} // verus!
