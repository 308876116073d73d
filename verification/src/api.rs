//! What the client knows about the server: where it is, the credential to
//! present, and how answers and paths are read and written.

use crate::error::BizrayError;
use crate::models::{LoginRequest, PasswordChangeRequest, RegisterRequest, UsernameChangeRequest};
use crate::text::{decimal, decimal_string};
use vstd::prelude::*;
use vstd::string::StringSliceAdditionalSpecFns;

verus! {

/// The description of a connection to the server.
#[derive(Debug, Clone)]
pub struct ApiClient {
    /// Address of the server, without the path of the interface.
    pub base_url: String,
    /// Seconds to wait for an answer.
    pub timeout_seconds: u64,
    /// The credential, while the user is logged in.
    pub token: Option<String>,
}

/// The method of a request.
#[derive(Debug, Clone, Copy, PartialEq, Eq, Structural)]
pub enum Method {
    Get,
    Post,
    Put,
    Delete,
}

/// What a request carries as its body, to be sent as JSON.
#[derive(Debug)]
pub enum Body {
    /// No body.
    Nothing,
    /// The empty value.
    Unit,
    Register(RegisterRequest),
    Login(LoginRequest),
    PasswordChange(PasswordChangeRequest),
    UsernameChange(UsernameChangeRequest),
}

/// A request to the server, ready to be sent.
#[derive(Debug)]
pub struct HttpRequest {
    pub method: Method,
    /// The full address.
    pub url: String,
    /// The credential to present as a bearer token, where there is one.
    pub token: Option<String>,
    /// The parameters of the query, in order.
    pub query: Vec<(String, String)>,
    pub body: Body,
}

/// The body of a request as a mathematical value.
pub enum BodyView {
    Nothing,
    Unit,
    Register { username: Seq<char>, email: Seq<char>, password: Seq<char> },
    Login { email: Seq<char>, password: Seq<char> },
    PasswordChange { current_password: Seq<char>, new_password: Seq<char> },
    UsernameChange { username: Seq<char> },
}

/// A request as a mathematical value.
pub struct RequestView {
    pub method: Method,
    pub url: Seq<char>,
    pub token: Option<Seq<char>>,
    pub query: Seq<(Seq<char>, Seq<char>)>,
    pub body: BodyView,
}

impl View for Body {
    type V = BodyView;

    open spec fn view(&self) -> BodyView {
        match self {
            Body::Nothing => BodyView::Nothing,
            Body::Unit => BodyView::Unit,
            Body::Register(r) => BodyView::Register {
                username: r.username@,
                email: r.email@,
                password: r.password@,
            },
            Body::Login(r) => BodyView::Login { email: r.email@, password: r.password@ },
            Body::PasswordChange(r) => BodyView::PasswordChange {
                current_password: r.current_password@,
                new_password: r.new_password@,
            },
            Body::UsernameChange(r) => BodyView::UsernameChange { username: r.username@ },
        }
    }
}

impl View for HttpRequest {
    type V = RequestView;

    open spec fn view(&self) -> RequestView {
        RequestView {
            method: self.method,
            url: self.url@,
            token: match self.token {
                Some(token) => Some(token@),
                None => None,
            },
            query: self.query@.map_values(|p: (String, String)| param_view(p)),
            body: self.body@,
        }
    }
}

/// Whether a byte stands for itself in a path: a digit, a letter of the
/// basic alphabet, or one of `-`, `.`, `_`, `~`.
pub open spec fn is_unreserved(b: u8) -> bool {
    ||| 0x30 <= b <= 0x39
    ||| 0x41 <= b <= 0x5A
    ||| 0x61 <= b <= 0x7A
    ||| b == 0x2D
    ||| b == 0x2E
    ||| b == 0x5F
    ||| b == 0x7E
}

/// The upper-case hexadecimal digit for a value below 16.
pub open spec fn hex_digit(d: u8) -> char {
    if d < 10 {
        (0x30 + d) as char
    } else {
        (0x41 - 10 + d) as char
    }
}

/// The percent-encoding of bytes: an unreserved byte stands for itself, any
/// other becomes `%` and its two hexadecimal digits.
pub open spec fn percent_encoded(bytes: Seq<u8>) -> Seq<char>
    decreases bytes.len(),
{
    if bytes.len() == 0 {
        Seq::empty()
    } else {
        let b = bytes.last();
        percent_encoded(bytes.drop_last()) + if is_unreserved(b) {
            seq![b as char]
        } else {
            seq!['%', hex_digit(b / 16), hex_digit(b % 16)]
        }
    }
}

/// Percent-encodes `data` with `urlencoding::encode`, which works on the
/// UTF-8 bytes of the text: it copies digits, letters of the basic alphabet
/// and `-`, `.`, `_`, `~`, and writes every other byte as `%` followed by its
/// two upper-case hexadecimal digits.
#[verifier::external_body]
fn url_encode(data: &str) -> (encoded: String)
    ensures
        encoded@ == percent_encoded(data.spec_bytes()),
{
    urlencoding::encode(data).into_owned()
}

/// Whether a status reports success: 200 to 299.
pub open spec fn is_success(status: u16) -> bool {
    200 <= status <= 299
}

/// One parameter of a query, as name and value.
pub open spec fn param_view(p: (String, String)) -> (Seq<char>, Seq<char>) {
    (p.0@, p.1@)
}

/// The parameters of a search: the query as `q`, the page as `p`, the page
/// size as `l`, and one `city` for each city to filter by, in order.
pub open spec fn search_params_view(
    query: Seq<char>,
    page: usize,
    limit: usize,
    cities: Seq<String>,
) -> Seq<(Seq<char>, Seq<char>)> {
    seq![("q"@, query), ("p"@, decimal(page as nat)), ("l"@, decimal(limit as nat))]
        + cities.map_values(|c: String| ("city"@, c@))
}

impl ApiClient {
    /// A connection to the server at `base_url`, without a credential.
    /// Describing a connection never fails.
    pub fn new(base_url: String, timeout_seconds: u64) -> (client: Result<Self, BizrayError>)
        ensures
            client == Ok::<ApiClient, BizrayError>(
                ApiClient { base_url, timeout_seconds, token: None },
            ),
    {
        Ok(ApiClient { base_url, timeout_seconds, token: None })
    }

    /// Takes `token` as the credential.
    pub fn set_token(&mut self, token: String)
        ensures
            *final(self) == (ApiClient { token: Some(token), ..*old(self) }),
    {
        self.token = Some(token);
    }

    /// Forgets the credential.
    pub fn clear_token(&mut self)
        ensures
            *final(self) == (ApiClient { token: None, ..*old(self) }),
    {
        self.token = None;
    }

    /// Whether there is a credential.
    pub fn has_token(&self) -> (yes: bool)
        ensures
            yes == self.token.is_some(),
    {
        self.token.is_some()
    }

    /// The address of the interface's resource at `path`.
    pub fn url(&self, path: &str) -> (url: String)
        ensures
            url@ == self.base_url@ + "/api/v1"@ + path@,
    {
        let mut url = self.base_url.clone();
        url.append("/api/v1");
        url.append(path);
        url
    }

    /// The path of the company with the given register number, which is
    /// percent-encoded.
    pub fn company_path(firmenbuchnummer: &str) -> (path: String)
        ensures
            path@ == "/company/"@ + percent_encoded(firmenbuchnummer.spec_bytes()),
    {
        let mut path = "/company/".to_owned();
        path.append(url_encode(firmenbuchnummer).as_str());
        path
    }

    /// The parameters of a search for `query` on page `page` with `limit`
    /// results per page, filtered by `cities`.
    pub fn search_params(
        query: &str,
        page: usize,
        limit: usize,
        cities: &[String],
    ) -> (params: Vec<(String, String)>)
        ensures
            params@.map_values(|p: (String, String)| param_view(p)) == search_params_view(
                query@,
                page,
                limit,
                cities@,
            ),
    {
        let mut params: Vec<(String, String)> = Vec::new();
        params.push(("q".to_owned(), query.to_owned()));
        params.push(("p".to_owned(), decimal_string(page as u64)));
        params.push(("l".to_owned(), decimal_string(limit as u64)));
        let ghost head = params@.map_values(|p: (String, String)| param_view(p));
        assert(head =~= seq![
            ("q"@, query@),
            ("p"@, decimal(page as nat)),
            ("l"@, decimal(limit as nat)),
        ]);
        let mut i: usize = 0;
        while i < cities.len()
            invariant
                i <= cities.len(),
                params@.map_values(|p: (String, String)| param_view(p)) == head
                    + cities@.take(i as int).map_values(|c: String| ("city"@, c@)),
            decreases cities.len() - i,
        {
            let ghost before = params@.map_values(|p: (String, String)| param_view(p));
            let ghost entry = ("city"@, cities@[i as int]@);
            params.push(("city".to_owned(), cities[i].clone()));
            assert(params@.map_values(|p: (String, String)| param_view(p)) =~= before.push(entry));
            assert(cities@.take(i + 1).map_values(|c: String| ("city"@, c@)) =~= cities@.take(
                i as int,
            ).map_values(|c: String| ("city"@, c@)).push(entry));
            assert(before.push(entry) =~= head + cities@.take(i + 1).map_values(
                |c: String| ("city"@, c@),
            ));
            i += 1;
        }
        assert(cities@.take(i as int) =~= cities@);
        params
    }

    /// What a request to the resource at `path` looks like: it goes to the
    /// address of that resource and presents the credential, if there is
    /// one.
    pub open spec fn request_view(
        &self,
        method: Method,
        path: Seq<char>,
        query: Seq<(Seq<char>, Seq<char>)>,
        body: BodyView,
    ) -> RequestView {
        RequestView {
            method,
            url: self.base_url@ + "/api/v1"@ + path,
            token: match self.token {
                Some(token) => Some(token@),
                None => None,
            },
            query,
            body,
        }
    }

    /// A request to the resource at `path`, without query or body.
    pub fn build_request(&self, method: Method, path: &str) -> (request: HttpRequest)
        ensures
            request@ == self.request_view(method, path@, Seq::empty(), BodyView::Nothing),
    {
        let token = match &self.token {
            Some(token) => Some(token.clone()),
            None => None,
        };
        let request = HttpRequest {
            method,
            url: self.url(path),
            token,
            query: Vec::new(),
            body: Body::Nothing,
        };
        assert(request@.query =~= Seq::empty());
        request
    }

    /// The request that reads the resource at `path`.
    pub fn get(&self, path: &str) -> (request: HttpRequest)
        ensures
            request@ == self.request_view(Method::Get, path@, Seq::empty(), BodyView::Nothing),
    {
        self.build_request(Method::Get, path)
    }

    /// The request that posts `body` to the resource at `path`.
    pub fn post(&self, path: &str, body: Body) -> (request: HttpRequest)
        ensures
            request@ == self.request_view(Method::Post, path@, Seq::empty(), body@),
    {
        let mut request = self.build_request(Method::Post, path);
        request.body = body;
        request
    }

    /// The request that puts `body` to the resource at `path`.
    pub fn put(&self, path: &str, body: Body) -> (request: HttpRequest)
        ensures
            request@ == self.request_view(Method::Put, path@, Seq::empty(), body@),
    {
        let mut request = self.build_request(Method::Put, path);
        request.body = body;
        request
    }

    /// The request that deletes the resource at `path`.
    pub fn delete(&self, path: &str) -> (request: HttpRequest)
        ensures
            request@ == self.request_view(Method::Delete, path@, Seq::empty(), BodyView::Nothing),
    {
        self.build_request(Method::Delete, path)
    }

    /// The request that reads the resource at `path` with the parameters
    /// `params`.
    pub fn get_with_query(
        &self,
        path: &str,
        params: Vec<(String, String)>,
    ) -> (request: HttpRequest)
        ensures
            request@ == self.request_view(
                Method::Get,
                path@,
                params@.map_values(|p: (String, String)| param_view(p)),
                BodyView::Nothing,
            ),
    {
        let mut request = self.build_request(Method::Get, path);
        request.query = params;
        request
    }

    /// The request that registers a user.
    pub fn register(&self, username: &str, email: &str, password: &str) -> (request: HttpRequest)
        ensures
            request@ == self.request_view(
                Method::Post,
                "/auth/register"@,
                Seq::empty(),
                BodyView::Register { username: username@, email: email@, password: password@ },
            ),
    {
        self.post(
            "/auth/register",
            Body::Register(
                RegisterRequest {
                    username: username.to_owned(),
                    email: email.to_owned(),
                    password: password.to_owned(),
                },
            ),
        )
    }

    /// The request that logs a user in.
    pub fn login(&self, email: &str, password: &str) -> (request: HttpRequest)
        ensures
            request@ == self.request_view(
                Method::Post,
                "/auth/login"@,
                Seq::empty(),
                BodyView::Login { email: email@, password: password@ },
            ),
    {
        self.post(
            "/auth/login",
            Body::Login(LoginRequest { email: email.to_owned(), password: password.to_owned() }),
        )
    }

    /// The request for the record of the user who is logged in.
    pub fn get_me(&self) -> (request: HttpRequest)
        ensures
            request@ == self.request_view(
                Method::Get,
                "/auth/me"@,
                Seq::empty(),
                BodyView::Nothing,
            ),
    {
        self.get("/auth/me")
    }

    /// The request that changes the password.
    pub fn change_password(
        &self,
        current_password: &str,
        new_password: &str,
    ) -> (request: HttpRequest)
        ensures
            request@ == self.request_view(
                Method::Put,
                "/auth/password"@,
                Seq::empty(),
                BodyView::PasswordChange {
                    current_password: current_password@,
                    new_password: new_password@,
                },
            ),
    {
        self.put(
            "/auth/password",
            Body::PasswordChange(
                PasswordChangeRequest {
                    current_password: current_password.to_owned(),
                    new_password: new_password.to_owned(),
                },
            ),
        )
    }

    /// The request that changes the user name.
    pub fn change_username(&self, username: &str) -> (request: HttpRequest)
        ensures
            request@ == self.request_view(
                Method::Put,
                "/auth/username"@,
                Seq::empty(),
                BodyView::UsernameChange { username: username@ },
            ),
    {
        self.put(
            "/auth/username",
            Body::UsernameChange(UsernameChangeRequest { username: username.to_owned() }),
        )
    }

    /// The request that deletes the account of the user who is logged in.
    pub fn delete_account(&self) -> (request: HttpRequest)
        ensures
            request@ == self.request_view(
                Method::Delete,
                "/auth/profile"@,
                Seq::empty(),
                BodyView::Nothing,
            ),
    {
        self.delete("/auth/profile")
    }

    /// The request that switches the subscription on or off. The user's
    /// record as it is afterwards is had with [`ApiClient::get_me`].
    pub fn toggle_subscription(&self) -> (request: HttpRequest)
        ensures
            request@ == self.request_view(
                Method::Post,
                "/auth/subscription/toggle"@,
                Seq::empty(),
                BodyView::Unit,
            ),
    {
        self.post("/auth/subscription/toggle", Body::Unit)
    }

    /// The request for one page of the companies that match a search.
    pub fn search_companies(
        &self,
        query: &str,
        page: usize,
        limit: usize,
        cities: &[String],
    ) -> (request: HttpRequest)
        ensures
            request@ == self.request_view(
                Method::Get,
                "/company"@,
                search_params_view(query@, page, limit, cities@),
                BodyView::Nothing,
            ),
    {
        self.get_with_query("/company", ApiClient::search_params(query, page, limit, cities))
    }

    /// The request for the details of one company.
    pub fn get_company(&self, firmenbuchnummer: &str) -> (request: HttpRequest)
        ensures
            request@ == self.request_view(
                Method::Get,
                "/company/"@ + percent_encoded(firmenbuchnummer.spec_bytes()),
                Seq::empty(),
                BodyView::Nothing,
            ),
    {
        let path = ApiClient::company_path(firmenbuchnummer);
        self.get(path.as_str())
    }

    /// The request for suggestions that complete `query`.
    pub fn get_search_suggestions(&self, query: &str) -> (request: HttpRequest)
        ensures
            request@ == self.request_view(
                Method::Get,
                "/search"@,
                seq![("q"@, query@)],
                BodyView::Nothing,
            ),
    {
        let mut params: Vec<(String, String)> = Vec::new();
        params.push(("q".to_owned(), query.to_owned()));
        assert(params@.map_values(|p: (String, String)| param_view(p)) =~= seq![("q"@, query@)]);
        self.get_with_query("/search", params)
    }

    /// The request for the cities that can be filtered by: all of them, or
    /// those that match `query`.
    pub fn get_cities(&self, query: Option<&str>) -> (request: HttpRequest)
        ensures
            request@ == self.request_view(
                Method::Get,
                "/cities"@,
                match query {
                    Some(q) => seq![("q"@, q@)],
                    None => Seq::empty(),
                },
                BodyView::Nothing,
            ),
    {
        match query {
            Some(q) => {
                let mut params: Vec<(String, String)> = Vec::new();
                params.push(("q".to_owned(), q.to_owned()));
                assert(params@.map_values(|p: (String, String)| param_view(p)) =~= seq![
                    ("q"@, q@),
                ]);
                self.get_with_query("/cities", params)
            },
            None => self.get("/cities"),
        }
    }

    /// The request for the sizes of the server's database.
    pub fn get_metrics(&self) -> (request: HttpRequest)
        ensures
            request@ == self.request_view(
                Method::Get,
                "/metrics"@,
                Seq::empty(),
                BodyView::Nothing,
            ),
    {
        self.get("/metrics")
    }

    /// The request for the most viewed companies.
    pub fn get_recommendations(&self) -> (request: HttpRequest)
        ensures
            request@ == self.request_view(
                Method::Get,
                "/recommendations"@,
                Seq::empty(),
                BodyView::Nothing,
            ),
    {
        self.get("/recommendations")
    }

    /// Reads an answer: with a status from 200 to 299 its body is handed on,
    /// with any other status it is the failure that the status stands for,
    /// described by `detail` where the body held one and by the whole body
    /// where it did not.
    pub fn handle_response(
        status: u16,
        body: String,
        detail: Option<String>,
    ) -> (answer: Result<String, BizrayError>)
        ensures
            is_success(status) ==> answer == Ok::<String, BizrayError>(body),
            !is_success(status) ==> answer is Err && BizrayError::http_failure(
                status,
                match detail {
                    Some(detail) => detail,
                    None => body,
                },
                answer->Err_0,
            ),
    {
        if 200 <= status && status <= 299 {
            Ok(body)
        } else {
            match detail {
                Some(detail) => Err(BizrayError::from_http_response(status, detail)),
                None => Err(BizrayError::from_http_response(status, body)),
            }
        }
    }
}

} // verus!
