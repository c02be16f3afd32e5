//! The hub client: checks its configuration, says which HTTP request each
//! operation makes, and reads the hub's replies.
//!
//! The client does not wait on the network itself: each operation starts with
//! a [`Step`], which either is the answer already or names the request to
//! send; the caller sends it and hands the outcome to the function that
//! reads it.
use vstd::prelude::*;

use crate::config::{empty_url_message, validation_spec};
use crate::models::{
    HubConfig, HubError, HubResult, NamedValue, RecallQuery, RecallResponse, RememberModel,
    RememberRequest, RememberResponse,
};
use crate::text::{decimal, decimal_string};

verus! {

#[verifier::external_type_specification]
#[verifier::external_body]
pub struct ExHttpClient(reqwest::Client);

#[verifier::external_type_specification]
#[verifier::external_body]
pub struct ExHttpError(reqwest::Error);

/// The request timeout, in seconds, that an HTTP client was built with.
pub uninterp spec fn client_timeout(c: reqwest::Client) -> u64;

/// Builds the HTTP client with the given request timeout in seconds
/// (`reqwest::Client::builder()`, `ClientBuilder::timeout`, `ClientBuilder::build`).
/// Claimed: a client that is built keeps that timeout (the builder stores it
/// and `build` hands it to the client). Whether building succeeds is not
/// claimed: it depends on the machine (its proxy settings, its TLS setup).
#[verifier::external_body]
fn build_http_client(timeout_secs: u64) -> (r: Result<reqwest::Client, reqwest::Error>)
    ensures
        r matches Ok(c) ==> client_timeout(c) == timeout_secs,
{
    reqwest::Client::builder().timeout(std::time::Duration::from_secs(timeout_secs)).build()
}

/// Another handle on the same HTTP client (`Clone` of `reqwest::Client`,
/// which shares the client's state); claimed to keep the client's timeout.
#[verifier::external_body]
fn clone_http_client(c: &reqwest::Client) -> (r: reqwest::Client)
    ensures
        client_timeout(r) == client_timeout(*c),
{
    c.clone()
}

/// The text that an HTTP client error displays.
pub uninterp spec fn http_error_display(e: reqwest::Error) -> Seq<char>;

/// The text of an HTTP client error (`Display` of `reqwest::Error`);
/// claimed to be `http_error_display(e)`: the text is a function of the
/// error's kind, URL and source alone.
#[verifier::external_body]
fn http_error_text(e: &reqwest::Error) -> (t: String)
    ensures
        t@ == http_error_display(*e),
{
    e.to_string()
}

/// The canonical reason phrase of an HTTP status code, as `http::StatusCode`
/// has it (`None` for codes without one).
pub uninterp spec fn canonical_reason(code: u16) -> Option<Seq<char>>;

/// The reason phrase of `code` (`StatusCode::from_u16` then
/// `StatusCode::canonical_reason`); claimed to be `canonical_reason(code)`.
#[verifier::external_body]
fn status_reason(code: u16) -> (res: Option<String>)
    ensures
        match res {
            Some(s) => canonical_reason(code) == Some(s@),
            None => canonical_reason(code) is None,
        },
{
    match reqwest::StatusCode::from_u16(code) {
        Ok(status) => match status.canonical_reason() {
            Some(r) => Some(r.to_string()),
            None => None,
        },
        Err(_) => None,
    }
}

/// How an HTTP status is written: the code, a space and the reason phrase.
pub open spec fn status_line(code: u16, reason: Option<Seq<char>>) -> Seq<char> {
    decimal(code as nat) + " "@ + match reason {
        Some(r) => r,
        None => "<unknown status code>"@,
    }
}

/// The HTTP method of a request.
#[derive(Debug, Clone, Copy, PartialEq, Eq)]
pub enum HttpMethod {
    Get,
    Post,
}

/// One HTTP request to the hub.
#[derive(Debug, Clone)]
pub struct RequestPlan {
    pub method: HttpMethod,
    pub url: String,
    pub headers: Vec<NamedValue>,
    pub query: Vec<NamedValue>,
    /// The memory sent as the JSON body, if any.
    pub body: Option<RememberRequest>,
}

/// Names and values as pairs of texts.
pub open spec fn pairs(v: Seq<NamedValue>) -> Seq<(Seq<char>, Seq<char>)> {
    v.map_values(|p: NamedValue| (p.name@, p.value@))
}

/// The view of an optional memory.
pub open spec fn body_view(b: Option<RememberRequest>) -> Option<RememberModel> {
    match b {
        Some(r) => Some(r@),
        None => None,
    }
}

/// A request as the tuple (method, url, headers, query, body).
pub open spec fn plan_view(p: RequestPlan) -> (
    HttpMethod,
    Seq<char>,
    Seq<(Seq<char>, Seq<char>)>,
    Seq<(Seq<char>, Seq<char>)>,
    Option<RememberModel>,
) {
    (p.method, p.url@, pairs(p.headers@), pairs(p.query@), body_view(p.body))
}

/// The first step of an operation: its answer, or the request to send.
#[derive(Debug)]
pub enum Step<T> {
    Done(T),
    Send(RequestPlan),
}

/// What to read from a reply once its status is known.
#[derive(Debug)]
pub enum ReplyRead {
    /// The body holds the JSON answer.
    Json,
    /// The body holds an error text.
    Text,
    /// The reply is an error; nothing is read.
    Fail(HubError),
}

/// The status a successful reply carries.
pub open spec fn status_ok() -> u16 {
    200
}

/// The status of a reply that refused the API key.
pub open spec fn status_unauthorized() -> u16 {
    401
}

/// A status in the success class 200-299.
pub open spec fn is_success_status(code: u16) -> bool {
    200 <= code < 300
}

/// The error of a reply whose status is neither success nor 401.
pub open spec fn status_error_spec(code: u16, reason: Option<Seq<char>>, body: Option<Seq<char>>) -> Seq<char> {
    "Status "@ + status_line(code, reason) + ": "@ + match body {
        Some(b) => b,
        None => "Unknown error"@,
    }
}

/// The headers of a request that carries the API key, and, for a body, its type.
pub open spec fn auth_headers(key: Seq<char>, json: bool) -> Seq<(Seq<char>, Seq<char>)> {
    if json {
        seq![("X-API-Key"@, key), ("Content-Type"@, "application/json"@)]
    } else {
        seq![("X-API-Key"@, key)]
    }
}

fn named(name: &str, value: String) -> (p: NamedValue)
    ensures
        p.name@ == name@,
        p.value@ == value@,
{
    NamedValue { name: name.to_string(), value }
}

/// HTTP client for Love-Unlimited Hub.
pub struct HubClient {
    client: reqwest::Client,
    config: HubConfig,
}

/// One step of retrying: with `max` retries allowed and `done` made, the
/// count once one more is made, or `None` where no more are allowed.
pub open spec fn retry_step(max: nat, done: nat) -> Option<nat> {
    if done < max {
        Some(done + 1)
    } else {
        None
    }
}

/// How many retries are made, from `done` on, when every send fails.
pub open spec fn retries_made(max: nat, done: nat) -> nat
    decreases max - done,
{
    match retry_step(max, done) {
        Some(n) => 1 + retries_made(max, n),
        None => 0,
    }
}

/// `e` is the error of a failed build of the HTTP client that failed with
/// `b`: an HTTP error with the builder error's text.
pub open spec fn is_build_failure(e: HubError, b: reqwest::Error) -> bool {
    e matches HubError::HttpError(m) && m@ == http_error_display(b)
}

impl Clone for HubClient {
    fn clone(&self) -> (res: Self)
        ensures
            res.spec_config() == self.spec_config(),
            client_timeout(res.spec_http()) == client_timeout(self.spec_http()),
    {
        HubClient { client: clone_http_client(&self.client), config: self.config.clone() }
    }
}

impl HubClient {
    /// The configuration the client was made with.
    pub closed spec fn spec_config(&self) -> HubConfig {
        self.config
    }

    /// Create a new hub client from configuration.
    pub fn new(config: HubConfig) -> (res: HubResult<Self>)
        ensures
            match validation_spec(config) {
                Err(m) => res matches Err(HubError::InvalidConfig(s)) && s@ == m,
                Ok(()) => if config.hub_url@.len() == 0 {
                    res matches Err(HubError::InvalidConfig(s)) && s@ == empty_url_message()
                } else {
                    match res {
                        Ok(c) => c.spec_config() == config && client_timeout(c.spec_http())
                            == config.timeout_secs,
                        Err(e) => exists|b: reqwest::Error| #[trigger] is_build_failure(e, b),
                    }
                },
            },
    {
        match config.validate() {
            Err(m) => return Err(HubError::InvalidConfig(m)),
            Ok(()) => {},
        }
        if config.hub_url.as_str().is_empty() {
            return Err(HubError::InvalidConfig("hub_url is empty".to_string()));
        }
        let built = build_http_client(config.timeout_secs);
        Self::from_build(config, built)
    }

    /// The client made from a configuration and the outcome of building its
    /// HTTP client: the client, or an HTTP error with the builder error's text.
    pub fn from_build(config: HubConfig, built: Result<reqwest::Client, reqwest::Error>) -> (res:
        HubResult<Self>)
        ensures
            match built {
                Ok(h) => res matches Ok(c) && c.spec_config() == config && c.spec_http() == h,
                Err(b) => res matches Err(e) && is_build_failure(e, b),
            },
    {
        match built {
            Ok(client) => Ok(HubClient { client, config }),
            Err(e) => Err(HubError::HttpError(http_error_text(&e))),
        }
    }

    /// Get the hub configuration.
    pub fn config(&self) -> (c: &HubConfig)
        ensures
            *c == self.spec_config(),
    {
        &self.config
    }

    /// The HTTP client the client was built with.
    pub closed spec fn spec_http(&self) -> reqwest::Client {
        self.client
    }

    /// The HTTP client that sends the requests.
    pub fn http(&self) -> (h: &reqwest::Client)
        ensures
            *h == self.spec_http(),
    {
        &self.client
    }

    fn endpoint(&self, path: &str) -> (url: String)
        ensures
            url@ == self.spec_config().hub_url@ + path@,
    {
        self.config.hub_url.clone().concat(path)
    }

    /// First step of the health check: disabled, it is not healthy;
    /// otherwise, GET `<hub_url>/health`.
    pub fn health_check(&self) -> (step: Step<HubResult<bool>>)
        ensures
            !self.spec_config().enabled ==> step matches Step::Done(Ok(false)),
            self.spec_config().enabled ==> (step matches Step::Send(p) && plan_view(p) == (
                HttpMethod::Get,
                self.spec_config().hub_url@ + "/health"@,
                Seq::<(Seq<char>, Seq<char>)>::empty(),
                Seq::<(Seq<char>, Seq<char>)>::empty(),
                None::<RememberModel>,
            )),
    {
        if !self.config.enabled {
            return Step::Done(Ok(false));
        }
        let p = RequestPlan {
            method: HttpMethod::Get,
            url: self.endpoint("/health"),
            headers: Vec::new(),
            query: Vec::new(),
            body: None,
        };
        assert(pairs(p.headers@) =~= Seq::<(Seq<char>, Seq<char>)>::empty());
        assert(pairs(p.query@) =~= Seq::<(Seq<char>, Seq<char>)>::empty());
        Step::Send(p)
    }

    /// Last step of the health check: healthy when a reply came with a
    /// success status; a failed request means not healthy.
    pub fn health_check_finish(status: Option<u16>) -> (res: HubResult<bool>)
        ensures
            res == Ok::<bool, HubError>(status matches Some(c) && is_success_status(c)),
    {
        match status {
            Some(c) => Ok(200 <= c && c < 300),
            None => Ok(false),
        }
    }

    /// First step of storing a memory: disabled, nothing is stored and the id
    /// is empty; otherwise, POST the request as JSON to `<hub_url>/remember`.
    pub fn remember(&self, request: RememberRequest) -> (step: Step<HubResult<String>>)
        ensures
            !self.spec_config().enabled ==> (step matches Step::Done(Ok(id)) && id@.len() == 0),
            self.spec_config().enabled ==> (step matches Step::Send(p) && plan_view(p) == (
                HttpMethod::Post,
                self.spec_config().hub_url@ + "/remember"@,
                auth_headers(self.spec_config().api_key@, true),
                Seq::<(Seq<char>, Seq<char>)>::empty(),
                Some(request@),
            )),
    {
        if !self.config.enabled {
            return Step::Done(Ok(String::new()));
        }
        let mut headers = Vec::new();
        headers.push(named("X-API-Key", self.config.api_key.clone()));
        headers.push(named("Content-Type", "application/json".to_string()));
        let p = RequestPlan {
            method: HttpMethod::Post,
            url: self.endpoint("/remember"),
            headers,
            query: Vec::new(),
            body: Some(request),
        };
        assert(pairs(p.headers@) =~= auth_headers(self.spec_config().api_key@, true));
        assert(pairs(p.query@) =~= Seq::<(Seq<char>, Seq<char>)>::empty());
        Step::Send(p)
    }

    /// First step of recalling memories: disabled, no memories; otherwise,
    /// GET `<hub_url>/recall` with the query text and the limit.
    pub fn recall(&self, query: &RecallQuery) -> (step: Step<HubResult<RecallResponse>>)
        ensures
            !self.spec_config().enabled ==> (step matches Step::Done(Ok(r)) && r.memories@.len()
                == 0 && r.count == 0),
            self.spec_config().enabled ==> (step matches Step::Send(p) && plan_view(p) == (
                HttpMethod::Get,
                self.spec_config().hub_url@ + "/recall"@,
                auth_headers(self.spec_config().api_key@, false),
                seq![("q"@, query.q@), ("limit"@, decimal(query.limit as nat))],
                None::<RememberModel>,
            )),
    {
        if !self.config.enabled {
            return Step::Done(Ok(RecallResponse { memories: Vec::new(), count: 0 }));
        }
        let mut headers = Vec::new();
        headers.push(named("X-API-Key", self.config.api_key.clone()));
        let mut params = Vec::new();
        params.push(named("q", query.q.clone()));
        params.push(named("limit", decimal_string(query.limit as u64)));
        let p = RequestPlan {
            method: HttpMethod::Get,
            url: self.endpoint("/recall"),
            headers,
            query: params,
            body: None,
        };
        assert(pairs(p.headers@) =~= auth_headers(self.spec_config().api_key@, false));
        assert(pairs(p.query@) =~= seq![("q"@, query.q@), ("limit"@, decimal(query.limit as nat))]);
        Step::Send(p)
    }

    /// After a request got no reply and `retries_done` retries were already
    /// made: the count of retries once it is sent again, or `None` where it is
    /// not sent again.
    pub fn retry_after_failure(&self, retries_done: u32) -> (next: Option<u32>)
        ensures
            match retry_step(self.spec_config().max_retries as nat, retries_done as nat) {
                Some(n) => next == Some(n as u32),
                None => next is None,
            },
            next matches Some(n) ==> n <= self.spec_config().max_retries,
    {
        if retries_done < self.config.max_retries {
            Some(retries_done + 1)
        } else {
            None
        }
    }

    /// The error of a request that got no reply.
    pub fn send_error(is_timeout: bool, message: String) -> (e: HubError)
        ensures
            is_timeout ==> e is Timeout,
            !is_timeout ==> (e matches HubError::HttpError(m) && m == message),
    {
        if is_timeout {
            HubError::Timeout
        } else {
            HubError::HttpError(message)
        }
    }

    /// What to read from a reply with the given status.
    pub fn reply_read(status: u16) -> (r: ReplyRead)
        ensures
            status == status_ok() ==> r is Json,
            status == status_unauthorized() ==> r matches ReplyRead::Fail(HubError::AuthFailed),
            status != status_ok() && status != status_unauthorized() ==> r is Text,
    {
        if status == 200 {
            ReplyRead::Json
        } else if status == 401 {
            ReplyRead::Fail(HubError::AuthFailed)
        } else {
            ReplyRead::Text
        }
    }

    /// The error of a reply with an unexpected status, given the reason phrase
    /// of the status and the body (`None` where it could not be read).
    pub fn status_error_with_reason(status: u16, reason: Option<String>, body: Option<String>) -> (e: HubError)
        ensures
            e matches HubError::HttpError(m) && m@ == status_error_spec(
                status,
                match reason {
                    Some(r) => Some(r@),
                    None => None,
                },
                match body {
                    Some(b) => Some(b@),
                    None => None,
                },
            ),
    {
        let phrase = match reason {
            Some(r) => r,
            None => "<unknown status code>".to_string(),
        };
        let text = match body {
            Some(b) => b,
            None => "Unknown error".to_string(),
        };
        let m = "Status ".to_string().concat(decimal_string(status as u64).as_str()).concat(" ").concat(
            phrase.as_str(),
        ).concat(": ").concat(text.as_str());
        HubError::HttpError(m)
    }

    /// The error of a reply with an unexpected status and the given body.
    pub fn status_error(status: u16, body: Option<String>) -> (e: HubError)
        ensures
            e matches HubError::HttpError(m) && m@ == status_error_spec(
                status,
                canonical_reason(status),
                match body {
                    Some(b) => Some(b@),
                    None => None,
                },
            ),
    {
        let reason = status_reason(status);
        Self::status_error_with_reason(status, reason, body)
    }

    /// The id of the stored memory, from the parsed JSON answer (or the text
    /// of the parse error).
    pub fn remember_reply(parsed: Result<RememberResponse, String>) -> (res: HubResult<String>)
        ensures
            match parsed {
                Ok(body) => match body.data {
                    Some(d) => res == Ok::<String, HubError>(d.memory_id),
                    None => res matches Err(HubError::Unknown(m)) && m@
                        == "No memory_id in response"@,
                },
                Err(m) => res == Err::<String, HubError>(HubError::SerializationError(m)),
            },
    {
        match parsed {
            Ok(body) => match body.data {
                Some(d) => Ok(d.memory_id),
                None => Err(HubError::Unknown("No memory_id in response".to_string())),
            },
            Err(m) => Err(HubError::SerializationError(m)),
        }
    }

    /// The recalled memories, from the parsed JSON answer (or the text of the
    /// parse error).
    pub fn recall_reply(parsed: Result<RecallResponse, String>) -> (res: HubResult<RecallResponse>)
        ensures
            match parsed {
                Ok(body) => res == Ok::<RecallResponse, HubError>(body),
                Err(m) => res == Err::<RecallResponse, HubError>(HubError::SerializationError(m)),
            },
    {
        match parsed {
            Ok(body) => Ok(body),
            Err(m) => Err(HubError::SerializationError(m)),
        }
    }
}

} // verus!
