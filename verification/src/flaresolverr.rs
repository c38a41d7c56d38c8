//! The wire answers of the server, in the format of FlareSolverr v3.3.21.
use crate::cf::solver::{is_unsolved, page_gives, status_of, ClearanceOutcome};
use crate::chaser::WafSummary;
use crate::clock::{clock_shows, duration_nanos, rfc3339_text, Timestamp};
use crate::cookies::{
    cookie_like, cookie_views, same_cookie, upsert_cookie, upserted, upserted_all, CookieView,
    StoredCookie,
};
use crate::error::ChaserResult;
use crate::fetcher::{
    FetchOp, FetchResponse, FetchRun, FetchStep, FetchView, refresh_due, DEFAULT_HTTP_STATUS,
};
use crate::metrics::{bumped, counted, record_fetch, FETCHES_FAILED, FETCHES_TOTAL};
use crate::models::SourceResponse;
use crate::session::{
    purged, reloaded, Session, SessionData, SessionManager, SessionView, DEFAULT_SESSION_ID,
};
use crate::text::{
    concat, concat3, decimal, decimal_string, note, noted, opt_text, str_eq, texts,
};
use std::time::Duration;
use vstd::prelude::*;

verus! {

pub const STATUS_OK: &'static str = "ok";

pub const STATUS_ERROR: &'static str = "error";

/// The version of the wire format.
pub const VERSION: &'static str = "3.3.21";

/// What stands on the wire for a cookie without an expiry.
pub const SESSION_COOKIE: i64 = -1;

/// A cookie on the wire.
#[derive(Debug, Clone)]
pub struct FlaresolverrCookie {
    pub name: String,
    pub value: String,
    pub domain: Option<String>,
    pub path: Option<String>,
    /// Whole seconds since the Unix epoch, rounded down; any negative number stands for a
    /// session cookie, which is written as `SESSION_COOKIE`.
    pub expires: i64,
    pub http_only: bool,
    pub secure: Option<bool>,
    pub same_site: Option<String>,
}

/// What a cookie on the wire says.
pub ghost struct WireCookie {
    pub name: Seq<char>,
    pub value: Seq<char>,
    pub domain: Option<Seq<char>>,
    pub path: Option<Seq<char>>,
    pub expires: i64,
    pub http_only: bool,
    pub secure: Option<bool>,
    pub same_site: Option<Seq<char>>,
}

impl View for FlaresolverrCookie {
    type V = WireCookie;

    open spec fn view(&self) -> WireCookie {
        WireCookie {
            name: self.name@,
            value: self.value@,
            domain: opt_text(self.domain),
            path: opt_text(self.path),
            expires: self.expires,
            http_only: self.http_only,
            secure: self.secure,
            same_site: opt_text(self.same_site),
        }
    }
}

/// A stored cookie as the wire tells it.
pub open spec fn to_wire(c: CookieView) -> WireCookie {
    WireCookie {
        name: c.name,
        value: c.value,
        domain: c.domain,
        path: c.path,
        expires: match c.expires {
            Some(e) => e,
            None => SESSION_COOKIE,
        },
        http_only: c.http_only,
        secure: Some(c.secure),
        same_site: c.same_site,
    }
}

/// A cookie of the wire as it is stored.
pub open spec fn from_wire(c: WireCookie) -> CookieView {
    CookieView {
        name: c.name,
        value: c.value,
        domain: c.domain,
        path: c.path,
        expires: if c.expires < 0 {
            None
        } else {
            Some(c.expires)
        },
        http_only: c.http_only,
        secure: c.secure == Some(true),
        same_site: c.same_site,
    }
}

impl From<StoredCookie> for FlaresolverrCookie {
    fn from(c: StoredCookie) -> (r: FlaresolverrCookie)
        ensures
            r@ == to_wire(c@),
            r.name == c.name,
            r.value == c.value,
            r.domain == c.domain,
            r.path == c.path,
            c.expires is Some ==> r.expires == c.expires->0,
            c.expires is None ==> r.expires == -1,
            r.http_only == c.http_only,
            r.secure == Some(c.secure),
            r.same_site == c.same_site,
    {
        FlaresolverrCookie {
            name: c.name,
            value: c.value,
            domain: c.domain,
            path: c.path,
            expires: match c.expires {
                Some(e) => e,
                None => SESSION_COOKIE,
            },
            http_only: c.http_only,
            secure: Some(c.secure),
            same_site: c.same_site,
        }
    }
}

impl vstd::std_specs::convert::FromSpecImpl<StoredCookie> for FlaresolverrCookie {
    open spec fn obeys_from_spec() -> bool {
        true
    }

    open spec fn from_spec(c: StoredCookie) -> FlaresolverrCookie {
        FlaresolverrCookie {
            name: c.name,
            value: c.value,
            domain: c.domain,
            path: c.path,
            expires: match c.expires {
                Some(e) => e,
                None => SESSION_COOKIE,
            },
            http_only: c.http_only,
            secure: Some(c.secure),
            same_site: c.same_site,
        }
    }
}

impl From<FlaresolverrCookie> for StoredCookie {
    fn from(c: FlaresolverrCookie) -> (r: StoredCookie)
        ensures
            r@ == from_wire(c@),
            r.name == c.name,
            r.value == c.value,
            r.domain == c.domain,
            r.path == c.path,
            c.expires >= 0 ==> r.expires == Some(c.expires),
            c.expires < 0 ==> r.expires is None,
            r.http_only == c.http_only,
            r.secure <==> c.secure == Some(true),
            r.same_site == c.same_site,
    {
        StoredCookie {
            name: c.name,
            value: c.value,
            domain: c.domain,
            path: c.path,
            expires: if c.expires < 0 {
                None
            } else {
                Some(c.expires)
            },
            http_only: c.http_only,
            secure: match c.secure {
                Some(b) => b,
                None => false,
            },
            same_site: c.same_site,
        }
    }
}

impl vstd::std_specs::convert::FromSpecImpl<FlaresolverrCookie> for StoredCookie {
    open spec fn obeys_from_spec() -> bool {
        true
    }

    open spec fn from_spec(c: FlaresolverrCookie) -> StoredCookie {
        StoredCookie {
            name: c.name,
            value: c.value,
            domain: c.domain,
            path: c.path,
            expires: if c.expires < 0 {
                None
            } else {
                Some(c.expires)
            },
            http_only: c.http_only,
            secure: c.secure == Some(true),
            same_site: c.same_site,
        }
    }
}

/// A stored cookie survives the way over the wire and back, unless it expired before the epoch.
pub proof fn law_cookie_roundtrip(c: CookieView)
    requires
        c.expires is Some ==> c.expires->0 >= 0,
    ensures
        from_wire(to_wire(c)) == c,
{
}

/// The way over the wire and back never changes which cookie it is.
pub proof fn law_roundtrip_keeps_identity(c: CookieView)
    ensures
        same_cookie(from_wire(to_wire(c)), c),
{
}

/// What a list of cookies says on the wire.
pub open spec fn wire_cookies(cookies: Seq<FlaresolverrCookie>) -> Seq<WireCookie> {
    cookies.map_values(|c: FlaresolverrCookie| c@)
}

fn all_to_wire(cookies: Vec<StoredCookie>) -> (r: Vec<FlaresolverrCookie>)
    ensures
        wire_cookies(r@) == cookie_views(cookies@).map_values(|c: CookieView| to_wire(c)),
{
    let ghost all = cookies@;
    let ghost sent = cookie_views(all).map_values(|c: CookieView| to_wire(c));
    let mut r: Vec<FlaresolverrCookie> = Vec::new();
    for c in it: cookies
        invariant
            it.seq() == all,
            sent == cookie_views(all).map_values(|c: CookieView| to_wire(c)),
            wire_cookies(r@) == sent.take(it.index() as int),
    {
        let ghost before = r@;
        let ghost stored = c@;
        let w = FlaresolverrCookie::from(c);
        r.push(w);
        assert(wire_cookies(r@) =~= wire_cookies(before).push(w@));
        assert(sent[it.index() as int] == to_wire(stored));
        assert(wire_cookies(r@) =~= sent.take(it.index() + 1));
    }
    assert(sent.take(sent.len() as int) =~= sent);
    r
}

/// A proxy that a request names.
#[derive(Debug, Clone)]
pub struct ProxyParam {
    pub url: Option<String>,
    pub username: Option<String>,
    pub password: Option<String>,
}

/// What a fetch gave, as the wire tells it.
#[derive(Debug, Clone)]
pub struct Solution {
    pub url: String,
    pub status: u16,
    pub headers: Vec<(String, String)>,
    pub response: String,
    pub cookies: Vec<FlaresolverrCookie>,
    pub user_agent: String,
}

/// What a solution says.
pub ghost struct SolutionView {
    pub url: Seq<char>,
    pub status: u16,
    pub headers: Seq<(Seq<char>, Seq<char>)>,
    pub response: Seq<char>,
    pub cookies: Seq<WireCookie>,
    pub user_agent: Seq<char>,
}

impl View for Solution {
    type V = SolutionView;

    open spec fn view(&self) -> SolutionView {
        SolutionView {
            url: self.url@,
            status: self.status,
            headers: self.headers@.map_values(|h: (String, String)| (h.0@, h.1@)),
            response: self.response@,
            cookies: wire_cookies(self.cookies@),
            user_agent: self.user_agent@,
        }
    }
}

/// A request.
#[derive(Debug, Clone)]
pub struct V1Request {
    pub cmd: String,
    pub url: Option<String>,
    pub post_data: Option<String>,
    /// Milliseconds.
    pub max_timeout: Option<u32>,
    pub proxy: Option<ProxyParam>,
    pub session: Option<String>,
    pub session_ttl_minutes: Option<u32>,
    pub cookies: Option<Vec<FlaresolverrCookie>>,
    pub return_only_cookies: Option<bool>,
    /// Removed in FlareSolverr v2, like those below: accepted with a warning, not honored.
    pub headers: Option<Vec<Vec<(String, String)>>>,
    pub user_agent: Option<String>,
    pub download: Option<bool>,
    pub return_raw_html: Option<bool>,
}

/// An answer.
#[derive(Debug, Clone)]
pub struct V1Response {
    pub status: String,
    pub message: String,
    /// Milliseconds since the Unix epoch.
    pub start_timestamp: u64,
    /// Milliseconds since the Unix epoch.
    pub end_timestamp: u64,
    pub version: String,
    pub solution: Option<Solution>,
    pub session: Option<String>,
    pub sessions: Option<Vec<String>>,
}

/// What an answer says.
pub ghost struct ResponseView {
    pub status: Seq<char>,
    pub message: Seq<char>,
    pub start_timestamp: u64,
    pub end_timestamp: u64,
    pub version: Seq<char>,
    pub solution: Option<SolutionView>,
    pub session: Option<Seq<char>>,
    pub sessions: Option<Seq<Seq<char>>>,
}

impl View for V1Response {
    type V = ResponseView;

    open spec fn view(&self) -> ResponseView {
        ResponseView {
            status: self.status@,
            message: self.message@,
            start_timestamp: self.start_timestamp,
            end_timestamp: self.end_timestamp,
            version: self.version@,
            solution: match self.solution {
                Some(s) => Some(s@),
                None => None,
            },
            session: opt_text(self.session),
            sessions: match self.sessions {
                Some(ids) => Some(texts(ids@)),
                None => None,
            },
        }
    }
}

/// An answer of success that says no more than a message.
pub open spec fn ok_answer(message: Seq<char>) -> ResponseView {
    ResponseView {
        status: STATUS_OK@,
        message,
        start_timestamp: 0,
        end_timestamp: 0,
        version: VERSION@,
        solution: None,
        session: None,
        sessions: None,
    }
}

/// An answer of failure.
pub open spec fn error_answer(message: Seq<char>) -> ResponseView {
    ResponseView { status: STATUS_ERROR@, ..ok_answer("Error: "@ + message) }
}

impl V1Response {
    /// An answer of success.
    pub fn ok(message: &str) -> (r: V1Response)
        ensures
            r@ == ok_answer(message@),
            r.status@ == "ok"@,
            r.message@ == message@,
            r.start_timestamp == 0,
            r.end_timestamp == 0,
            r.version@ == "3.3.21"@,
            r.solution is None,
            r.session is None,
            r.sessions is None,
    {
        V1Response {
            status: STATUS_OK.to_owned(),
            message: message.to_owned(),
            start_timestamp: 0,
            end_timestamp: 0,
            version: VERSION.to_owned(),
            solution: None,
            session: None,
            sessions: None,
        }
    }

    /// An answer of failure.
    pub fn error(message: &str) -> (r: V1Response)
        ensures
            r@ == error_answer(message@),
            r.status@ == "error"@,
            r.message@ == "Error: "@ + message@,
            r.start_timestamp == 0,
            r.end_timestamp == 0,
            r.version@ == "3.3.21"@,
            r.solution is None,
            r.session is None,
            r.sessions is None,
    {
        V1Response {
            status: STATUS_ERROR.to_owned(),
            message: concat("Error: ", message),
            start_timestamp: 0,
            end_timestamp: 0,
            version: VERSION.to_owned(),
            solution: None,
            session: None,
            sessions: None,
        }
    }

    /// The answer with a solution.
    pub fn with_solution(self, solution: Solution) -> (r: V1Response)
        ensures
            r@ == (ResponseView { solution: Some(solution@), ..self@ }),
            r == (V1Response { solution: Some(solution), ..self }),
    {
        V1Response { solution: Some(solution), ..self }
    }

    /// The answer with a session.
    pub fn with_session(self, session: String) -> (r: V1Response)
        ensures
            r@ == (ResponseView { session: Some(session@), ..self@ }),
            r == (V1Response { session: Some(session), ..self }),
    {
        V1Response { session: Some(session), ..self }
    }

    /// The answer with a list of sessions.
    pub fn with_sessions(self, sessions: Vec<String>) -> (r: V1Response)
        ensures
            r@ == (ResponseView { sessions: Some(texts(sessions@)), ..self@ }),
            r == (V1Response { sessions: Some(sessions), ..self }),
    {
        V1Response { sessions: Some(sessions), ..self }
    }

    /// The answer with the times at which its request came in and was done.
    pub fn stamped(self, start: u64, end: u64) -> (r: V1Response)
        ensures
            r@ == (ResponseView { start_timestamp: start, end_timestamp: end, ..self@ }),
            r == (V1Response { start_timestamp: start, end_timestamp: end, ..self }),
    {
        V1Response { start_timestamp: start, end_timestamp: end, ..self }
    }

    /// Whether the answer is one of success.
    pub fn is_ok(&self) -> (r: bool)
        ensures
            r == (self@.status == STATUS_OK@),
            r <==> self.status@ == "ok"@,
    {
        str_eq(self.status.as_str(), STATUS_OK)
    }
}

/// The greeting of the server.
#[derive(Debug, Clone)]
pub struct IndexResponse {
    pub msg: String,
    pub version: String,
    pub user_agent: String,
}

/// Greets.
pub fn index() -> (r: IndexResponse)
    ensures
        r.msg@ == "FlareSolverr is ready!"@,
        r.version@ == VERSION@,
        r.version@ == "3.3.21"@,
        r.user_agent@ == "That's a secret :)"@,
{
    IndexResponse {
        msg: "FlareSolverr is ready!".to_owned(),
        version: VERSION.to_owned(),
        user_agent: "That's a secret :)".to_owned(),
    }
}

/// The time that a fetch may take where the request does not say, in milliseconds.
pub const DEFAULT_MAX_TIMEOUT_MS: u64 = 60_000;

/// The time that a fetch may take, in milliseconds.
pub open spec fn max_timeout_ms(max_timeout: Option<u32>) -> nat {
    match max_timeout {
        Some(ms) => if ms > 0 {
            ms as nat
        } else {
            DEFAULT_MAX_TIMEOUT_MS as nat
        },
        None => DEFAULT_MAX_TIMEOUT_MS as nat,
    }
}

/// The time that a fetch may take: what the request says, unless it says nothing or zero.
pub fn resolve_max_timeout(max_timeout: Option<u32>) -> (r: Duration)
    ensures
        duration_nanos(r) == max_timeout_ms(max_timeout) * 1_000_000,
        max_timeout is Some && max_timeout->0 > 0 ==> duration_nanos(r) == max_timeout->0
            * 1_000_000,
        max_timeout is None || max_timeout->0 == 0 ==> duration_nanos(r) == 60_000 * 1_000_000,
{
    let ms: u64 = match max_timeout {
        Some(ms) => if ms > 0 {
            ms as u64
        } else {
            DEFAULT_MAX_TIMEOUT_MS
        },
        None => DEFAULT_MAX_TIMEOUT_MS,
    };
    Duration::from_millis(ms)
}

impl V1Request {
    /// The warnings about parameters that were removed from the format.
    pub open spec fn deprecated(self) -> Seq<Seq<char>> {
        noted(
            noted(
                noted(
                    noted(
                        Seq::empty(),
                        self.headers is Some,
                        "Deprecated: 'headers' was removed in FlareSolverr v2"@,
                    ),
                    self.user_agent is Some,
                    "Deprecated: 'userAgent' was removed in FlareSolverr v2"@,
                ),
                self.return_raw_html is Some,
                "Deprecated: 'returnRawHtml' was removed in FlareSolverr v2"@,
            ),
            self.download is Some,
            "Deprecated: 'download' was removed in FlareSolverr v2"@,
        )
    }

    /// The warnings about parameters that a fetch accepts and does not honor.
    pub open spec fn ignored(self) -> Seq<Seq<char>> {
        noted(
            noted(
                self.deprecated(),
                self.proxy is Some,
                "Per-request 'proxy' is ignored; upstream proxy is configured globally via env"@,
            ),
            self.session_ttl_minutes is Some,
            "'session_ttl_minutes' on request.get/post is ignored; set it on sessions.create"@,
        )
    }
}

fn warn_deprecated(req: &V1Request) -> (r: Vec<&'static str>)
    ensures
        r@.map_values(|t: &'static str| t@) == req.deprecated(),
{
    let none: Vec<&'static str> = Vec::new();
    assert(none@.map_values(|t: &'static str| t@) =~= Seq::<Seq<char>>::empty());
    let list = note(
        none,
        req.headers.is_some(),
        "Deprecated: 'headers' was removed in FlareSolverr v2",
    );
    let list = note(
        list,
        req.user_agent.is_some(),
        "Deprecated: 'userAgent' was removed in FlareSolverr v2",
    );
    let list = note(
        list,
        req.return_raw_html.is_some(),
        "Deprecated: 'returnRawHtml' was removed in FlareSolverr v2",
    );
    note(list, req.download.is_some(), "Deprecated: 'download' was removed in FlareSolverr v2")
}

/// The warnings about parameters that a fetch accepts, so that clients need not leave them out,
/// and does not honor.
pub fn warn_ignored_params(req: &V1Request) -> (r: Vec<&'static str>)
    ensures
        r@.map_values(|t: &'static str| t@) == req.ignored(),
{
    let list = warn_deprecated(req);
    let list = note(
        list,
        req.proxy.is_some(),
        "Per-request 'proxy' is ignored; upstream proxy is configured globally via env",
    );
    note(
        list,
        req.session_ttl_minutes.is_some(),
        "'session_ttl_minutes' on request.get/post is ignored; set it on sessions.create",
    )
}

/// A fetch that was asked for.
#[derive(Debug)]
pub struct FetchOrder {
    pub url: String,
    pub op: FetchOp,
}

/// What a request asks for.
#[derive(Debug)]
pub enum V1Action {
    /// A fetch.
    Fetch(FetchOrder),
    /// A new session.
    Create { ttl_minutes: Option<u32> },
    /// The list of sessions.
    List,
    /// The end of a session.
    Destroy { id: String },
    /// Nothing that can be done: this is the answer.
    Refuse(V1Response),
}

impl V1Action {
    /// Whether it is the refusal with that message.
    pub open spec fn refuses(self, message: Seq<char>) -> bool {
        self is Refuse && self->Refuse_0@ == error_answer(message)
    }

    /// Whether it is what a GET request asks for.
    pub open spec fn is_get(self, req: V1Request) -> bool {
        match req.url {
            None => self.refuses("Parameter 'url' is mandatory for request.get"@),
            Some(url) => if req.post_data is Some {
                self.refuses("Cannot use 'postData' with GET request"@)
            } else {
                &&& self is Fetch
                &&& self->Fetch_0.url@ == url@
                &&& self->Fetch_0.op == (FetchOp::Get {
                    return_only_cookies: req.return_only_cookies == Some(true),
                })
            },
        }
    }

    /// Whether it is what a POST request asks for.
    pub open spec fn is_post(self, req: V1Request) -> bool {
        match req.url {
            None => self.refuses("Parameter 'url' is mandatory for request.post"@),
            Some(url) => match req.post_data {
                None => self.refuses("Parameter 'postData' is mandatory for request.post"@),
                Some(data) => {
                    &&& self is Fetch
                    &&& self->Fetch_0.url@ == url@
                    &&& self->Fetch_0.op is Post
                    &&& self->Fetch_0.op->post_data@ == data@
                },
            },
        }
    }

    /// Whether it is what a request to end a session asks for.
    pub open spec fn is_destroy(self, req: V1Request) -> bool {
        match req.session {
            None => self.refuses("Parameter 'session' is mandatory for sessions.destroy"@),
            Some(id) => self is Destroy && self->id@ == id@,
        }
    }

    /// Whether it is what the request asks for.
    pub open spec fn is_asked_by(self, req: V1Request) -> bool {
        let cmd = req.cmd@;
        if cmd == "request.get"@ {
            self.is_get(req)
        } else if cmd == "request.post"@ {
            self.is_post(req)
        } else if cmd == "sessions.create"@ {
            self == (V1Action::Create { ttl_minutes: req.session_ttl_minutes })
        } else if cmd == "sessions.list"@ {
            self is List
        } else if cmd == "sessions.destroy"@ {
            self.is_destroy(req)
        } else if cmd.len() == 0 {
            self.refuses("Parameter 'cmd' is mandatory"@)
        } else {
            self.refuses("Unknown command: "@ + cmd)
        }
    }
}

fn handle_get(req: &V1Request) -> (r: V1Action)
    ensures
        r.is_get(*req),
{
    let url = match &req.url {
        Some(u) => u.clone(),
        None => {
            return V1Action::Refuse(
                V1Response::error("Parameter 'url' is mandatory for request.get"),
            );
        },
    };
    if req.post_data.is_some() {
        return V1Action::Refuse(V1Response::error("Cannot use 'postData' with GET request"));
    }
    let return_only_cookies = match req.return_only_cookies {
        Some(b) => b,
        None => false,
    };
    V1Action::Fetch(FetchOrder { url, op: FetchOp::Get { return_only_cookies } })
}

fn handle_post(req: &V1Request) -> (r: V1Action)
    ensures
        r.is_post(*req),
{
    let url = match &req.url {
        Some(u) => u.clone(),
        None => {
            return V1Action::Refuse(
                V1Response::error("Parameter 'url' is mandatory for request.post"),
            );
        },
    };
    let post_data = match &req.post_data {
        Some(d) => d.clone(),
        None => {
            return V1Action::Refuse(
                V1Response::error("Parameter 'postData' is mandatory for request.post"),
            );
        },
    };
    V1Action::Fetch(FetchOrder { url, op: FetchOp::Post { post_data } })
}

/// Tells what a request asks for.
pub fn v1_handler(req: &V1Request) -> (r: V1Action)
    ensures
        r.is_asked_by(*req),
{
    let cmd = req.cmd.as_str();
    proof {
        reveal_strlit("");
        if req.cmd@.len() == 0 {
            assert(req.cmd@ =~= ""@);
        }
    }
    if str_eq(cmd, "request.get") {
        handle_get(req)
    } else if str_eq(cmd, "request.post") {
        handle_post(req)
    } else if str_eq(cmd, "sessions.create") {
        V1Action::Create { ttl_minutes: req.session_ttl_minutes }
    } else if str_eq(cmd, "sessions.list") {
        V1Action::List
    } else if str_eq(cmd, "sessions.destroy") {
        match &req.session {
            Some(id) => V1Action::Destroy { id: id.clone() },
            None => V1Action::Refuse(
                V1Response::error("Parameter 'session' is mandatory for sessions.destroy"),
            ),
        }
    } else if str_eq(cmd, "") {
        V1Action::Refuse(V1Response::error("Parameter 'cmd' is mandatory"))
    } else {
        V1Action::Refuse(V1Response::error(concat("Unknown command: ", cmd).as_str()))
    }
}

/// A fetch that failed: when, and why.
#[derive(Debug)]
pub struct FailureRecord {
    pub at: Timestamp,
    pub reason: String,
}

/// How the fetches went so far. Each of them is recorded once, when its outcome is known.
#[derive(Debug)]
pub struct HealthState {
    pub fetches_total: u64,
    pub fetches_failed: u64,
    pub last_success_at: Option<Timestamp>,
    pub last_failure: Option<FailureRecord>,
}

/// What the record of the fetches says.
pub ghost struct HealthView {
    pub fetches_total: u64,
    pub fetches_failed: u64,
    pub last_success_at: Option<Timestamp>,
    pub last_failure: Option<(Timestamp, Seq<char>)>,
}

impl View for HealthState {
    type V = HealthView;

    open spec fn view(&self) -> HealthView {
        HealthView {
            fetches_total: self.fetches_total,
            fetches_failed: self.fetches_failed,
            last_success_at: self.last_success_at,
            last_failure: match self.last_failure {
                Some(f) => Some((f.at, f.reason@)),
                None => None,
            },
        }
    }
}

/// The next value of a counter, which starts over at zero after its last value.
pub open spec fn next_count(n: u64) -> u64 {
    if n < u64::MAX {
        (n + 1) as u64
    } else {
        0
    }
}

/// The record with one more success.
pub open spec fn with_success(health: HealthView, at: Timestamp) -> HealthView {
    HealthView {
        fetches_total: next_count(health.fetches_total),
        last_success_at: Some(at),
        ..health
    }
}

/// The record with one more failure.
pub open spec fn with_failure(health: HealthView, at: Timestamp, reason: Seq<char>) -> HealthView {
    HealthView {
        fetches_total: next_count(health.fetches_total),
        fetches_failed: next_count(health.fetches_failed),
        last_failure: Some((at, reason)),
        ..health
    }
}

/// The record of a server that has fetched nothing yet.
pub open spec fn no_fetches() -> HealthView {
    HealthView {
        fetches_total: 0,
        fetches_failed: 0,
        last_success_at: None,
        last_failure: None,
    }
}

/// What the server tells about itself.
#[derive(Debug)]
pub struct HealthResponse {
    /// `ok` when the browser is ready, else what is wrong.
    pub status: String,
    pub version: &'static str,
    pub uptime_seconds: u64,
    pub chaser_cf_ready: bool,
    pub sessions: usize,
    pub fetches_total: u64,
    pub fetches_failed: u64,
    pub last_success_at: Option<String>,
    pub last_failure_at: Option<String>,
    pub last_failure_reason: Option<String>,
}

/// The version of the server.
pub const PACKAGE_VERSION: &'static str = "0.1.0";

/// HTTP status: all is well.
pub const HTTP_OK: u16 = 200;

/// HTTP status: the service is not available.
pub const HTTP_UNAVAILABLE: u16 = 503;

/// A time as it is told, if there is one.
pub open spec fn told_time(at: Option<Timestamp>) -> Option<Seq<char>> {
    match at {
        Some(t) => rfc3339_text(t.secs, t.nanos),
        None => None,
    }
}

fn tell_time(at: Option<Timestamp>) -> (r: Option<String>)
    ensures
        opt_text(r) == told_time(at),
{
    match at {
        Some(t) => t.rfc3339(),
        None => None,
    }
}

impl HealthState {
    /// The record of a server that has fetched nothing yet.
    pub fn new() -> (r: HealthState)
        ensures
            r@ == no_fetches(),
            r@.tells_its_times(),
            r.fetches_total == 0,
            r.fetches_failed == 0,
            r.last_success_at is None,
            r.last_failure is None,
    {
        HealthState {
            fetches_total: 0,
            fetches_failed: 0,
            last_success_at: None,
            last_failure: None,
        }
    }

    /// Records a success; the result names the counters that go up with it.
    pub fn record_success_at(&mut self, at: Timestamp) -> (r: Vec<&'static str>)
        ensures
            final(self)@ == with_success(old(self)@, at),
            final(self).fetches_total as nat == (old(self).fetches_total + 1)
                % 0x1_0000_0000_0000_0000,
            final(self).fetches_failed == old(self).fetches_failed,
            final(self).last_success_at == Some(at),
            final(self).last_failure == old(self).last_failure,
            r@.map_values(|name: &'static str| name@) == bumped(true),
    {
        self.fetches_total = self.fetches_total.wrapping_add(1);
        self.last_success_at = Some(at);
        record_fetch(true)
    }

    /// Records a failure; the result names the counters that go up with it.
    pub fn record_failure_at(&mut self, at: Timestamp, reason: String) -> (r: Vec<&'static str>)
        ensures
            final(self)@ == with_failure(old(self)@, at, reason@),
            final(self).fetches_total as nat == (old(self).fetches_total + 1)
                % 0x1_0000_0000_0000_0000,
            final(self).fetches_failed as nat == (old(self).fetches_failed + 1)
                % 0x1_0000_0000_0000_0000,
            final(self).last_success_at == old(self).last_success_at,
            final(self).last_failure == Some(FailureRecord { at, reason }),
            r@.map_values(|name: &'static str| name@) == bumped(false),
    {
        self.fetches_total = self.fetches_total.wrapping_add(1);
        self.fetches_failed = self.fetches_failed.wrapping_add(1);
        self.last_failure = Some(FailureRecord { at, reason });
        record_fetch(false)
    }

    /// Records a success of now.
    pub fn record_success(&mut self) -> (r: Vec<&'static str>)
        ensures
            exists|at: Timestamp|
                #![trigger with_success(old(self)@, at)]
                at.is_reading() && final(self)@ == with_success(
                    old(self)@,
                    at,
                ),
            old(self)@.tells_its_times() ==> final(self)@.tells_its_times(),
            r@.map_values(|name: &'static str| name@) == bumped(true),
    {
        let ghost before = self@;
        let at = Timestamp::now();
        let r = self.record_success_at(at);
        assert(self@ == with_success(before, at));
        r
    }

    /// Records a failure of now.
    pub fn record_failure(&mut self, reason: String) -> (r: Vec<&'static str>)
        ensures
            exists|at: Timestamp|
                #![trigger with_failure(old(self)@, at, reason@)]
                at.is_reading() && final(self)@ == with_failure(
                    old(self)@,
                    at,
                    reason@,
                ),
            old(self)@.tells_its_times() ==> final(self)@.tells_its_times(),
            r@.map_values(|name: &'static str| name@) == bumped(false),
    {
        let ghost before = self@;
        let at = Timestamp::now();
        let r = self.record_failure_at(at, reason);
        assert(self@ == with_failure(before, at, reason@));
        r
    }

    /// What the server tells about itself, with the HTTP status to tell it with.
    pub fn health(&self, ready: bool, sessions: usize, uptime_seconds: u64) -> (r: (
        u16,
        HealthResponse,
    ))
        ensures
            r.0 == (if ready {
                HTTP_OK
            } else {
                HTTP_UNAVAILABLE
            }),
            r.1.status@ == (if ready {
                STATUS_OK@
            } else {
                "chaser-cf browser not ready"@
            }),
            r.1.version@ == PACKAGE_VERSION@,
            r.1.uptime_seconds == uptime_seconds,
            r.1.chaser_cf_ready == ready,
            r.1.sessions == sessions,
            r.1.fetches_total == self@.fetches_total,
            r.1.fetches_failed == self@.fetches_failed,
            opt_text(r.1.last_success_at) == told_time(self@.last_success_at),
            opt_text(r.1.last_failure_at) == self@.failure_time(),
            opt_text(r.1.last_failure_reason) == self@.failure_text(),
            self@.tells_its_times() ==> (r.1.last_failure_at is Some
                <==> r.1.last_failure_reason is Some),
            ready ==> r.0 == 200 && r.1.status@ == "ok"@,
            !ready ==> r.0 == 503 && r.1.status@ == "chaser-cf browser not ready"@,
            r.1.version@ == "0.1.0"@,
            r.1.fetches_total == self.fetches_total,
            r.1.fetches_failed == self.fetches_failed,
            self.last_success_at is None ==> r.1.last_success_at is None,
            self.last_success_at is Some ==> opt_text(r.1.last_success_at) == rfc3339_text(
                self.last_success_at->0.secs,
                self.last_success_at->0.nanos,
            ),
            self.last_failure is None ==> r.1.last_failure_at is None
                && r.1.last_failure_reason is None,
            self.last_failure is Some ==> {
                &&& opt_text(r.1.last_failure_at) == rfc3339_text(
                    self.last_failure->0.at.secs,
                    self.last_failure->0.at.nanos,
                )
                &&& r.1.last_failure_reason is Some
                &&& r.1.last_failure_reason->0@ == self.last_failure->0.reason@
            },
    {
        let (last_failure_at, last_failure_reason) = match &self.last_failure {
            Some(f) => (tell_time(Some(f.at)), Some(f.reason.clone())),
            None => (None, None),
        };
        let (http_status, status) = if ready {
            (HTTP_OK, STATUS_OK)
        } else {
            (HTTP_UNAVAILABLE, "chaser-cf browser not ready")
        };
        (
            http_status,
            HealthResponse {
                status: status.to_owned(),
                version: PACKAGE_VERSION,
                uptime_seconds,
                chaser_cf_ready: ready,
                sessions,
                fetches_total: self.fetches_total,
                fetches_failed: self.fetches_failed,
                last_success_at: tell_time(self.last_success_at),
                last_failure_at,
                last_failure_reason,
            },
        )
    }
}

/// The record after one more fetch: `None` for a success, else the reason of the failure.
pub open spec fn recorded(
    health: HealthView,
    at: Timestamp,
    failure: Option<Seq<char>>,
) -> HealthView {
    match failure {
        None => with_success(health, at),
        Some(reason) => with_failure(health, at, reason),
    }
}

impl HealthView {
    /// Every time on record can be told.
    pub open spec fn tells_its_times(self) -> bool {
        &&& self.last_success_at is Some ==> self.last_success_at->0.is_reading()
        &&& match self.last_failure {
            Some(f) => f.0.is_reading(),
            None => true,
        }
    }

    /// The time of the last failure, as it is told.
    pub open spec fn failure_time(self) -> Option<Seq<char>> {
        match self.last_failure {
            Some(f) => told_time(Some(f.0)),
            None => None,
        }
    }

    /// The reason of the last failure.
    pub open spec fn failure_text(self) -> Option<Seq<char>> {
        match self.last_failure {
            Some(f) => Some(f.1),
            None => None,
        }
    }
}

/// A record whose fetches ended at times that the clock showed tells the time of the last
/// failure exactly if it tells the reason, and that of the last success whenever there was one.
pub proof fn law_times_are_told(fetches: Seq<(Timestamp, Option<Seq<char>>)>)
    requires
        forall|i: int| 0 <= i < fetches.len() ==> (#[trigger] fetches[i]).0.is_reading(),
    ensures
        history(fetches).tells_its_times(),
        history(fetches).failure_time() is Some <==> history(fetches).failure_text() is Some,
        told_time(history(fetches).last_success_at) is Some <==> history(
            fetches,
        ).last_success_at is Some,
    decreases fetches.len(),
{
    if fetches.len() > 0 {
        let rest = fetches.drop_last();
        assert forall|i: int| 0 <= i < rest.len() implies (#[trigger] rest[i]).0.is_reading() by {
            assert(rest[i] == fetches[i]);
        }
        law_times_are_told(rest);
        assert(fetches[fetches.len() - 1].0.is_reading());
    }
}

/// The record of a server after a run of fetches.
pub open spec fn history(fetches: Seq<(Timestamp, Option<Seq<char>>)>) -> HealthView
    decreases fetches.len(),
{
    if fetches.len() == 0 {
        no_fetches()
    } else {
        recorded(history(fetches.drop_last()), fetches.last().0, fetches.last().1)
    }
}

/// Which fetches of a run succeeded.
pub open spec fn outcomes(fetches: Seq<(Timestamp, Option<Seq<char>>)>) -> Seq<bool> {
    fetches.map_values(|f: (Timestamp, Option<Seq<char>>)| f.1 is None)
}

/// The record and the exported counters never drift apart: after any run of fetches both have
/// counted the same, modulo the range of the record's counters.
pub proof fn law_record_and_counters_agree(fetches: Seq<(Timestamp, Option<Seq<char>>)>)
    ensures
        history(fetches).fetches_total as nat == counted(outcomes(fetches), FETCHES_TOTAL@)
            % 0x1_0000_0000_0000_0000,
        history(fetches).fetches_failed as nat == counted(outcomes(fetches), FETCHES_FAILED@)
            % 0x1_0000_0000_0000_0000,
    decreases fetches.len(),
{
    if fetches.len() > 0 {
        let rest = fetches.drop_last();
        law_record_and_counters_agree(rest);
        assert(outcomes(fetches).drop_last() =~= outcomes(rest));
        crate::metrics::law_total_counts_all(outcomes(fetches));
        crate::metrics::law_total_counts_all(outcomes(rest));
        crate::metrics::law_failed_counts_failures(outcomes(fetches));
        crate::metrics::law_failed_counts_failures(outcomes(rest));
        reveal(Seq::filter);
    }
}

/// Until the counters start over, no more fetches have failed than there were.
pub proof fn law_failures_are_fetches(fetches: Seq<(Timestamp, Option<Seq<char>>)>)
    requires
        fetches.len() <= u64::MAX,
    ensures
        history(fetches).fetches_total == fetches.len(),
        history(fetches).fetches_failed <= history(fetches).fetches_total,
{
    law_record_and_counters_agree(fetches);
    crate::metrics::law_total_counts_all(outcomes(fetches));
    crate::metrics::law_failed_counts_failures(outcomes(fetches));
}

/// The session that a request means: the one it names, or the default one.
pub open spec fn requested_session(req: V1Request) -> Seq<char> {
    match req.session {
        Some(id) => id@,
        None => "default"@,
    }
}

/// Finds the session that a request means, with its id; or the answer that there is none.
pub fn find_session<'a, H>(sessions: &'a SessionManager<H>, req: &V1Request) -> (r: Result<
    (String, &'a H),
    V1Response,
>)
    ensures
        match r {
            Ok(found) => {
                &&& found.0@ == requested_session(*req)
                &&& sessions@.dom().contains(found.0@)
                &&& *found.1 == sessions@[found.0@]
                &&& req.session is Some ==> found.0@ == req.session->0@
                &&& req.session is None ==> found.0@ == "default"@
            },
            Err(answer) => {
                &&& !sessions@.dom().contains(requested_session(*req))
                &&& answer@ == error_answer("Session not found: "@ + requested_session(*req))
                &&& req.session is Some ==> is_error(
                    answer,
                    "Error: "@ + ("Session not found: "@ + req.session->0@),
                )
                &&& req.session is None ==> is_error(
                    answer,
                    "Error: "@ + ("Session not found: "@ + "default"@),
                )
            },
        },
{
    let id = match &req.session {
        Some(id) => sessions.resolve_session_id(Some(id.as_str())),
        None => sessions.resolve_session_id(None),
    };
    match sessions.get_session(id.as_str()) {
        Some(h) => Ok((id, h)),
        None => Err(
            V1Response::error(concat("Session not found: ", id.as_str()).as_str()),
        ),
    }
}

/// Whether the data of a session is read in again before a fetch: of all but the default one.
pub fn needs_reload(id: &str) -> (r: bool)
    ensures
        r == (id@ != "default"@),
{
    !str_eq(id, DEFAULT_SESSION_ID)
}

/// The data of a session when a fetch begins: what was read in again, if it could be, with the
/// cookies that the request brings.
pub open spec fn readied(
    state: SessionView,
    id: Seq<char>,
    found: Result<Option<SessionData>, String>,
    incoming: Option<Vec<FlaresolverrCookie>>,
) -> SessionView {
    let base = if id != "default"@ {
        reloaded(state, found)
    } else {
        state
    };
    match incoming {
        Some(cookies) => SessionView {
            cookies: upserted_all(
                base.cookies,
                wire_cookies(cookies@).map_values(|c: WireCookie| from_wire(c)),
            ),
            ..base
        },
        None => base,
    }
}

fn merge_cookies(cookies: &mut Vec<StoredCookie>, incoming: Vec<FlaresolverrCookie>)
    ensures
        cookie_views(final(cookies)@) == upserted_all(
            cookie_views(old(cookies)@),
            wire_cookies(incoming@).map_values(|c: WireCookie| from_wire(c)),
        ),
{
    let ghost before = cookie_views(cookies@);
    let ghost all = incoming@;
    let ghost newer = wire_cookies(all).map_values(|c: WireCookie| from_wire(c));
    assert(newer.take(0) =~= Seq::<CookieView>::empty());
    for c in it: incoming
        invariant
            it.seq() == all,
            before == cookie_views(old(cookies)@),
            newer == wire_cookies(all).map_values(|c: WireCookie| from_wire(c)),
            cookie_views(cookies@) == upserted_all(before, newer.take(it.index() as int)),
    {
        assert(newer[it.index() as int] == from_wire(c@));
        upsert_cookie(cookies, StoredCookie::from(c));
        assert(newer.take(it.index() + 1).drop_last() =~= newer.take(it.index() as int));
    }
    assert(newer.take(newer.len() as int) =~= newer);
}

/// Readies a session for a fetch: notes its use, takes over what was read in again, and takes
/// in the cookies that the request brings.
pub fn ready_session<C>(
    session: &mut Session<C>,
    id: &str,
    found: Result<Option<SessionData>, String>,
    incoming: Option<Vec<FlaresolverrCookie>>,
)
    ensures
        final(session).data@ == readied(old(session).data@, id@, found, incoming),
        final(session).last_used.is_reading(),
        *final(session) == (Session {
            data: final(session).data,
            last_used: final(session).last_used,
            ..*old(session)
        }),
{
    session.touch();
    if needs_reload(id) {
        let _unreadable = session.reload(found);
    }
    if let Some(cookies) = incoming {
        merge_cookies(&mut session.data.cookies, cookies);
    }
}

/// Whether a fetch does what was ordered.
pub open spec fn does(run: FetchRun, order: FetchOrder) -> bool {
    &&& run.url@ == order.url@
    &&& opt_text(run.host) == crate::fetcher::url_host(order.url@)
    &&& match order.op {
        FetchOp::Get { return_only_cookies } => run.op == (FetchOp::Get { return_only_cookies }),
        FetchOp::Post { post_data } => run.op is Post && run.op->post_data@ == post_data@,
    }
}

/// Starts the fetch that was ordered.
pub fn start_fetch<C>(session: &Session<C>, order: &FetchOrder) -> (r: (FetchRun, FetchStep))
    ensures
        does(r.0, *order),
        r.0.url@ == order.url@,
        order.op is Get ==> r.0.op == order.op,
        order.op is Post ==> r.0.op is Post && r.0.op->post_data@ == order.op->post_data@,
        exists|now: i64|
            clock_shows(now) && #[trigger] r.0.starts(
                session.data@,
                session.session_cfg.clearance_ttl_seconds,
                now,
                r.1,
            ),
{
    match &order.op {
        FetchOp::Get { return_only_cookies } => session.fetch(
            order.url.as_str(),
            *return_only_cookies,
        ),
        FetchOp::Post { post_data } => session.fetch_post(order.url.as_str(), post_data.as_str()),
    }
}

/// What the result of a fetch says.
pub open spec fn result_view(result: Result<FetchResponse, String>) -> Result<FetchView, Seq<char>> {
    match result {
        Ok(response) => Ok(response@),
        Err(e) => Err(e@),
    }
}

/// What the result of a fetch under a time limit says: its own result, or the error that the
/// time ran out.
pub open spec fn limited(
    budget: Duration,
    outcome: Option<Result<FetchResponse, String>>,
) -> Result<FetchView, Seq<char>> {
    match outcome {
        Some(result) => result_view(result),
        None => Err(
            "request exceeded maxTimeout of "@ + decimal(duration_nanos(budget) / 1_000_000)
                + "ms"@,
        ),
    }
}

/// The result of a fetch under a time limit: its own, or the error that the time ran out.
pub fn with_timeout(budget: &Duration, outcome: Option<Result<FetchResponse, String>>) -> (r: Result<
    FetchResponse,
    String,
>)
    ensures
        result_view(r) == limited(*budget, outcome),
        outcome is Some ==> r == outcome->0,
        outcome is None ==> r is Err && r->Err_0@ == "request exceeded maxTimeout of "@ + decimal(
            duration_nanos(*budget) / 1_000_000,
        ) + "ms"@,
{
    match outcome {
        Some(result) => result,
        None => Err(
            concat3(
                "request exceeded maxTimeout of ",
                decimal_string(budget.as_millis()).as_str(),
                "ms",
            ),
        ),
    }
}

/// What a fetch gave, as the wire tells it.
pub open spec fn solution_of(response: FetchView) -> SolutionView {
    SolutionView {
        url: response.url,
        status: response.status,
        headers: Seq::empty(),
        response: response.body,
        cookies: response.cookies.map_values(|c: CookieView| to_wire(c)),
        user_agent: response.user_agent,
    }
}

/// The answer to a request for a fetch with that result, for a session.
pub open spec fn fetch_answer(id: Seq<char>, result: Result<FetchView, Seq<char>>) -> ResponseView {
    match result {
        Ok(response) => ResponseView {
            solution: Some(solution_of(response)),
            session: Some(id),
            ..ok_answer("Challenge solved!"@)
        },
        Err(e) => error_answer("Challenge failed: "@ + e),
    }
}

/// Why a fetch of a URL failed, for the record; `None` if it did not.
pub open spec fn failure_reason(
    url: Seq<char>,
    result: Result<FetchView, Seq<char>>,
) -> Option<Seq<char>> {
    match result {
        Ok(_) => None,
        Err(e) => Some(url + ": "@ + e),
    }
}

fn make_solution(response: FetchResponse) -> (r: Solution)
    ensures
        r@ == solution_of(response@),
        r.url == response.url,
        r.status == response.status,
        r.headers@.len() == 0,
        r.response == response.body,
        r.user_agent == response.user_agent,
{
    let headers: Vec<(String, String)> = Vec::new();
    let r = Solution {
        url: response.url,
        status: response.status,
        headers,
        response: response.body,
        cookies: all_to_wire(response.cookies),
        user_agent: response.user_agent,
    };
    assert(r@.headers =~= Seq::<(Seq<char>, Seq<char>)>::empty());
    r
}

/// Records the result of a fetch at a time, and shapes the answer; the second part names the
/// counters that go up with it.
pub fn finish_fetch_at(
    health: &mut HealthState,
    id: String,
    url: &str,
    result: Result<FetchResponse, String>,
    at: Timestamp,
) -> (r: (V1Response, Vec<&'static str>))
    ensures
        r.0@ == fetch_answer(id@, result_view(result)),
        final(health)@ == recorded(old(health)@, at, failure_reason(url@, result_view(result))),
        r.1@.map_values(|name: &'static str| name@) == bumped(result is Ok),
        result matches Ok(response) ==> {
            &&& r.0.status@ == "ok"@
            &&& r.0.message@ == "Challenge solved!"@
            &&& r.0.session == Some(id)
            &&& r.0.solution is Some
            &&& r.0.solution->0.url == response.url
            &&& r.0.solution->0.status == response.status
            &&& r.0.solution->0.response == response.body
            &&& r.0.solution->0.user_agent == response.user_agent
            &&& final(health).last_success_at == Some(at)
            &&& final(health).last_failure == old(health).last_failure
        },
        result matches Err(e) ==> {
            &&& is_error(r.0, "Error: "@ + ("Challenge failed: "@ + e@))
            &&& final(health).last_success_at == old(health).last_success_at
            &&& final(health).last_failure is Some
            &&& final(health).last_failure->0.at == at
            &&& final(health).last_failure->0.reason@ == url@ + ": "@ + e@
        },
{
    match result {
        Ok(response) => {
            let names = health.record_success_at(at);
            let solution = make_solution(response);
            (V1Response::ok("Challenge solved!").with_solution(solution).with_session(id), names)
        },
        Err(e) => {
            let names = health.record_failure_at(at, concat3(url, ": ", e.as_str()));
            (V1Response::error(concat("Challenge failed: ", e.as_str()).as_str()), names)
        },
    }
}

/// Records the result of a fetch as of now, and shapes the answer.
pub fn finish_fetch(
    health: &mut HealthState,
    id: String,
    url: &str,
    result: Result<FetchResponse, String>,
) -> (r: (V1Response, Vec<&'static str>))
    ensures
        r.0@ == fetch_answer(id@, result_view(result)),
        exists|at: Timestamp|
            at.is_reading() && final(health)@ == #[trigger] recorded(
                old(health)@,
                at,
                failure_reason(url@, result_view(result)),
            ),
        old(health)@.tells_its_times() ==> final(health)@.tells_its_times(),
        r.1@.map_values(|name: &'static str| name@) == bumped(result is Ok),
{
    let ghost before = health@;
    let at = Timestamp::now();
    let r = finish_fetch_at(health, id, url, result, at);
    assert(health@ == recorded(before, at, failure_reason(url@, result_view(result))));
    r
}

/// Begins an ordered fetch on its session: readies the session and tells the first step.
pub fn begin_fetch<C>(
    session: &mut Session<C>,
    id: &str,
    found: Result<Option<SessionData>, String>,
    incoming: Option<Vec<FlaresolverrCookie>>,
    order: &FetchOrder,
) -> (r: (FetchRun, FetchStep))
    ensures
        final(session).data@ == readied(old(session).data@, id@, found, incoming),
        final(session).last_used.is_reading(),
        *final(session) == (Session {
            data: final(session).data,
            last_used: final(session).last_used,
            ..*old(session)
        }),
        does(r.0, *order),
        exists|now: i64|
            clock_shows(now) && #[trigger] r.0.starts(
                final(session).data@,
                final(session).session_cfg.clearance_ttl_seconds,
                now,
                r.1,
            ),
{
    ready_session(session, id, found, incoming);
    start_fetch(session, order)
}

/// Ends an ordered fetch, whether it came to its own end within its time or not: readies the
/// session for being written out, records the result and shapes the answer.
pub fn end_fetch<C>(
    session: &mut Session<C>,
    health: &mut HealthState,
    id: String,
    order: &FetchOrder,
    budget: &Duration,
    outcome: Option<Result<FetchResponse, String>>,
) -> (r: (V1Response, Vec<&'static str>))
    ensures
        exists|now: i64|
            {
                &&& clock_shows(now)
                &&& final(session).data@ == #[trigger] purged(old(session).data@, now)
                &&& final(session).data.cookies@ == old(session).data.cookies@.filter(
                    |c: StoredCookie| c.expires is None || c.expires->0 > now,
                )
            },
        *final(session) == (Session { data: final(session).data, ..*old(session) }),
        r.0@ == fetch_answer(id@, limited(*budget, outcome)),
        exists|at: Timestamp|
            at.is_reading() && final(health)@ == #[trigger] recorded(
                old(health)@,
                at,
                failure_reason(order.url@, limited(*budget, outcome)),
            ),
        old(health)@.tells_its_times() ==> final(health)@.tells_its_times(),
        r.1@.map_values(|name: &'static str| name@) == bumped(limited(*budget, outcome) is Ok),
{
    let result = with_timeout(budget, outcome);
    session.save();
    finish_fetch(health, id, order.url.as_str(), result)
}

/// Enters a new session, and answers with its id.
pub fn handle_create<H>(sessions: &mut SessionManager<H>, id: String, session: H) -> (r: V1Response)
    requires
        old(sessions).wf(),
    ensures
        final(sessions).wf(),
        final(sessions)@ == old(sessions)@.insert(id@, session),
        r@ == (ResponseView { session: Some(id@), ..ok_answer("Session created"@) }),
        r.status@ == "ok"@,
        r.message@ == "Session created"@,
        r.session is Some,
        r.session->0@ == id@,
{
    let told = id.clone();
    sessions.create_session(id, session);
    V1Response::ok("Session created").with_session(told)
}

/// Answers with the ids of all sessions.
pub fn handle_list<H>(sessions: &SessionManager<H>) -> (r: V1Response)
    requires
        sessions.wf(),
    ensures
        r@ == (ResponseView {
            sessions: Some(sessions.ids()),
            ..ok_answer("Found "@ + decimal(sessions.ids().len()) + " session(s)"@)
        }),
        r.status@ == "ok"@,
        r.message@ == "Found "@ + decimal(r.sessions->0@.len()) + " session(s)"@,
        r.sessions is Some,
        texts(r.sessions->0@) == sessions.ids(),
        r@.sessions->0.no_duplicates(),
        forall|id: Seq<char>| #[trigger]
            r@.sessions->0.contains(id) <==> sessions@.dom().contains(id),
{
    let ids = sessions.list_sessions();
    assert(texts(ids@).len() == ids@.len());
    let message = concat3("Found ", decimal_string(ids.len() as u128).as_str(), " session(s)");
    V1Response::ok(message.as_str()).with_sessions(ids)
}

/// Takes a session out, and answers; the second part is the session, for its data to be
/// removed.
pub fn handle_destroy<H>(sessions: &mut SessionManager<H>, id: String) -> (r: (
    V1Response,
    Option<H>,
))
    requires
        old(sessions).wf(),
    ensures
        final(sessions).wf(),
        id@ != "default"@ && old(sessions)@.dom().contains(id@) ==> {
            &&& final(sessions)@ == old(sessions)@.remove(id@)
            &&& r.0@ == (ResponseView { session: Some(id@), ..ok_answer("Session destroyed"@) })
            &&& r.0.status@ == "ok"@
            &&& r.0.message@ == "Session destroyed"@
            &&& r.0.session == Some(id)
            &&& r.1 == Some(old(sessions)@[id@])
        },
        id@ == "default"@ ==> {
            &&& *final(sessions) == *old(sessions)
            &&& r.0@ == error_answer("Cannot destroy the default session"@)
            &&& is_error(r.0, "Error: "@ + "Cannot destroy the default session"@)
            &&& r.1 is None
        },
        id@ != "default"@ && !old(sessions)@.dom().contains(id@) ==> {
            &&& *final(sessions) == *old(sessions)
            &&& r.0@ == error_answer("Session not found: "@ + id@)
            &&& is_error(r.0, "Error: "@ + ("Session not found: "@ + id@))
            &&& r.1 is None
        },
{
    match sessions.destroy_session(id.as_str()) {
        Ok(h) => (V1Response::ok("Session destroyed").with_session(id), Some(h)),
        Err(e) => (V1Response::error(e.message().as_str()), None),
    }
}

/// A challenge that was not solved is never served: the fetch ends in an error, and the answer
/// says so and carries no solution.
pub proof fn law_unsolved_challenge_is_an_error(
    run: FetchRun,
    state: SessionView,
    outcome: ClearanceOutcome,
    html: Seq<char>,
    reported: Option<u64>,
    reply: ChaserResult<SourceResponse>,
    step: FetchStep,
    id: Seq<char>,
)
    requires
        !outcome.is_cleared(),
        page_gives(outcome, html, reported, reply),
        run.page_answer(state, reply, step),
    ensures
        step is Fail,
        fetch_answer(id, Err(step->Fail_0@)).status == STATUS_ERROR@,
        fetch_answer(id, Err(step->Fail_0@)).solution is None,
{
}

/// Where only cookies are asked for, a challenge that was attempted and not solved is answered
/// with an error just so, and the attempt is on record all the same.
pub proof fn law_unsolved_challenge_gives_no_cookies(
    run: FetchRun,
    state: SessionView,
    reply: ChaserResult<WafSummary>,
    now: i64,
    step: FetchStep,
    id: Seq<char>,
)
    requires
        run.wants_only_cookies(),
        reply is Err,
        is_unsolved(reply->Err_0),
        run.waf_answer(run.after_waf(state, reply, now), reply, step),
    ensures
        step is Fail,
        fetch_answer(id, Err(step->Fail_0@)).status == STATUS_ERROR@,
        fetch_answer(id, Err(step->Fail_0@)).solution is None,
        failure_reason(run.url@, Err(step->Fail_0@)) is Some,
        run.after_waf(state, reply, now).clearance_fetched_at == Some(now),
        run.after_waf(state, reply, now).clearance_host == opt_text(run.host),
{
}

/// Where only cookies are asked for and the fetch goes on, no page is served: the answer has an
/// empty body and tells the cookies and the user agent of the session.
pub proof fn law_cookies_alone_serve_no_page(
    run: FetchRun,
    state: SessionView,
    step: FetchStep,
    id: Seq<char>,
)
    requires
        run.wants_only_cookies(),
        run.goes_on(state, step),
    ensures
        step is Respond,
        fetch_answer(id, Ok(step->Respond_0@)).solution == Some(
            SolutionView {
                url: run.url@,
                status: DEFAULT_HTTP_STATUS,
                headers: Seq::empty(),
                response: Seq::empty(),
                cookies: state.cookies.map_values(|c: CookieView| to_wire(c)),
                user_agent: state.user_agent,
            },
        ),
{
}

/// A page that was cleared is served as it is: with the status that was reported for it, or
/// 200, and with the cookies and the user agent of the session.
pub proof fn law_cleared_page_is_served(
    run: FetchRun,
    state: SessionView,
    outcome: ClearanceOutcome,
    html: Seq<char>,
    reported: Option<u64>,
    reply: ChaserResult<SourceResponse>,
    step: FetchStep,
    id: Seq<char>,
)
    requires
        outcome.is_cleared(),
        page_gives(outcome, html, reported, reply),
        run.page_answer(state, reply, step),
    ensures
        step is Respond,
        ({
            let answer = fetch_answer(id, Ok(step->Respond_0@));
            &&& answer.status == STATUS_OK@
            &&& answer.session == Some(id)
            &&& answer.solution == Some(
                SolutionView {
                    url: run.url@,
                    status: match status_of(reported) {
                        Some(status) => status,
                        None => DEFAULT_HTTP_STATUS,
                    },
                    headers: Seq::empty(),
                    response: html,
                    cookies: state.cookies.map_values(|c: CookieView| to_wire(c)),
                    user_agent: state.user_agent,
                },
            )
        }),
{
}

/// An answer carries a solution exactly if it is one of success, and success and failure cannot
/// be mistaken for each other.
pub proof fn law_solution_means_success(id: Seq<char>, result: Result<FetchView, Seq<char>>)
    ensures
        fetch_answer(id, result).solution is Some <==> fetch_answer(id, result).status
            == STATUS_OK@,
        fetch_answer(id, result).status == STATUS_OK@ <==> result is Ok,
{
    reveal_strlit("ok");
    reveal_strlit("error");
    assert(STATUS_OK@.len() != STATUS_ERROR@.len());
}

/// A fetch that outlasts its time is answered with an error, and without a solution.
pub proof fn law_exceeded_limit_is_an_error(id: Seq<char>, budget: Duration)
    ensures
        fetch_answer(id, limited(budget, None)).status == STATUS_ERROR@,
        fetch_answer(id, limited(budget, None)).solution is None,
{
}

/// Each cookie that a request brings stands for its identity when the fetch begins, unless the
/// request brings a later one of the same identity.
pub proof fn law_brought_cookies_take_precedence(
    state: SessionView,
    id: Seq<char>,
    found: Result<Option<SessionData>, String>,
    incoming: Vec<FlaresolverrCookie>,
    k: int,
)
    requires
        0 <= k < incoming@.len(),
        forall|j: int|
            k < j < incoming@.len() ==> !same_cookie(
                from_wire((#[trigger] incoming@[j])@),
                from_wire(incoming@[k]@),
            ),
    ensures
        cookie_like(
            readied(state, id, found, Some(incoming)).cookies,
            from_wire(incoming@[k]@),
        ) == Some(from_wire(incoming@[k]@)),
{
    let newer = wire_cookies(incoming@).map_values(|c: WireCookie| from_wire(c));
    let base = readied(state, id, found, None).cookies;
    assert forall|j: int| k < j < newer.len() implies !same_cookie(
        #[trigger] newer[j],
        newer[k],
    ) by {
        assert(newer[j] == from_wire(incoming@[j]@));
    }
    crate::cookies::law_upsert_all_gives_back(base, newer, k);
}

/// The window of a clearance spans requests: what is written out after one request and read in
/// before the next, and the cookies that the next one brings, neither shorten nor lengthen it.
pub proof fn law_window_spans_requests(
    run: FetchRun,
    later: FetchRun,
    state: SessionView,
    reply: ChaserResult<WafSummary>,
    ttl_seconds: i64,
    attempted: i64,
    saved: i64,
    now: i64,
    id: Seq<char>,
    found: Result<Option<SessionData>, String>,
    incoming: Option<Vec<FlaresolverrCookie>>,
)
    requires
        opt_text(later.host) == opt_text(run.host),
        attempted <= now,
        found matches Ok(Some(data)) ==> data@ == purged(
            run.after_waf(state, reply, attempted),
            saved,
        ),
    ensures
        refresh_due(
            readied(
                purged(run.after_waf(state, reply, attempted), saved),
                id,
                found,
                incoming,
            ),
            ttl_seconds,
            opt_text(later.host),
            now,
        ) <==> now >= attempted + ttl_seconds,
{
}

/// Whether an answer is one of failure, with that message and nothing else.
pub open spec fn is_error(r: V1Response, message: Seq<char>) -> bool {
    &&& r.status@ == "error"@
    &&& r.message@ == message
    &&& r.version@ == "3.3.21"@
    &&& r.solution is None
    &&& r.session is None
    &&& r.sessions is None
}

/// An answer says what its fields say.
pub proof fn law_answer_view_tells_the_fields(r: V1Response)
    ensures
        r@.status == r.status@,
        r@.message == r.message@,
        r@.start_timestamp == r.start_timestamp,
        r@.end_timestamp == r.end_timestamp,
        r@.version == r.version@,
        r.solution is Some ==> r@.solution == Some(r.solution->0@),
        r.solution is None ==> r@.solution is None,
        r.session is Some ==> r@.session == Some(r.session->0@),
        r.session is None ==> r@.session is None,
        r.sessions is Some ==> r@.sessions == Some(texts(r.sessions->0@)),
        r.sessions is None ==> r@.sessions is None,
{
}

/// A solution says what its fields say.
pub proof fn law_solution_view_tells_the_fields(s: Solution)
    ensures
        s@.url == s.url@,
        s@.status == s.status,
        s@.response == s.response@,
        s@.user_agent == s.user_agent@,
        s@.headers.len() == s.headers@.len(),
        forall|i: int|
            0 <= i < s.headers@.len() ==> (#[trigger] s@.headers[i]).0 == s.headers@[i].0@
                && s@.headers[i].1 == s.headers@[i].1@,
        s@.cookies.len() == s.cookies@.len(),
        forall|i: int| 0 <= i < s.cookies@.len() ==> #[trigger] s@.cookies[i] == s.cookies@[i]@,
{
}

/// A cookie on the wire says what its fields say.
pub proof fn law_wire_view_tells_the_fields(c: FlaresolverrCookie)
    ensures
        c@.name == c.name@,
        c@.value == c.value@,
        c.domain is Some ==> c@.domain == Some(c.domain->0@),
        c.domain is None ==> c@.domain is None,
        c.path is Some ==> c@.path == Some(c.path->0@),
        c.path is None ==> c@.path is None,
        c@.expires == c.expires,
        c@.http_only == c.http_only,
        c@.secure == c.secure,
        c.same_site is Some ==> c@.same_site == Some(c.same_site->0@),
        c.same_site is None ==> c@.same_site is None,
{
}

/// On its way to the wire a cookie keeps its attributes, each of them. One without an expiry is
/// sent with -1.
pub proof fn law_sent_cookie_keeps_its_attributes(c: CookieView)
    ensures
        to_wire(c).name == c.name,
        to_wire(c).value == c.value,
        to_wire(c).domain == c.domain,
        to_wire(c).path == c.path,
        c.expires is Some ==> to_wire(c).expires == c.expires->0,
        c.expires is None ==> to_wire(c).expires == -1,
        to_wire(c).http_only == c.http_only,
        to_wire(c).secure == Some(c.secure),
        to_wire(c).same_site == c.same_site,
{
}

/// On its way from the wire a cookie keeps its attributes, each of them. A negative expiry stands
/// for none, and what is not said to be secure is not.
pub proof fn law_received_cookie_keeps_its_attributes(c: WireCookie)
    ensures
        from_wire(c).name == c.name,
        from_wire(c).value == c.value,
        from_wire(c).domain == c.domain,
        from_wire(c).path == c.path,
        c.expires >= 0 ==> from_wire(c).expires == Some(c.expires),
        c.expires < 0 ==> from_wire(c).expires is None,
        from_wire(c).http_only == c.http_only,
        from_wire(c).secure <==> c.secure == Some(true),
        from_wire(c).same_site == c.same_site,
{
}

/// Whether a cookie of the wire has the attributes of a stored one, each of them.
pub open spec fn sends(w: FlaresolverrCookie, c: StoredCookie) -> bool {
    &&& w.name@ == c.name@
    &&& w.value@ == c.value@
    &&& w.domain is Some <==> c.domain is Some
    &&& w.domain is Some ==> w.domain->0@ == c.domain->0@
    &&& w.path is Some <==> c.path is Some
    &&& w.path is Some ==> w.path->0@ == c.path->0@
    &&& c.expires is Some ==> w.expires == c.expires->0
    &&& c.expires is None ==> w.expires == -1
    &&& w.http_only == c.http_only
    &&& w.secure == Some(c.secure)
    &&& w.same_site is Some <==> c.same_site is Some
    &&& w.same_site is Some ==> w.same_site->0@ == c.same_site->0@
}

/// The conversions themselves keep each attribute too, in either direction.
pub proof fn law_conversions_keep_the_attributes(stored: StoredCookie, wire: FlaresolverrCookie)
    ensures
        ({
            let w = <FlaresolverrCookie as vstd::std_specs::convert::FromSpec<
                StoredCookie,
            >>::from_spec(stored);
            &&& w.name == stored.name
            &&& w.value == stored.value
            &&& w.domain == stored.domain
            &&& w.path == stored.path
            &&& stored.expires is Some ==> w.expires == stored.expires->0
            &&& stored.expires is None ==> w.expires == -1
            &&& w.http_only == stored.http_only
            &&& w.secure == Some(stored.secure)
            &&& w.same_site == stored.same_site
        }),
        ({
            let c = <StoredCookie as vstd::std_specs::convert::FromSpec<
                FlaresolverrCookie,
            >>::from_spec(wire);
            &&& c.name == wire.name
            &&& c.value == wire.value
            &&& c.domain == wire.domain
            &&& c.path == wire.path
            &&& wire.expires >= 0 ==> c.expires == Some(wire.expires)
            &&& wire.expires < 0 ==> c.expires is None
            &&& c.http_only == wire.http_only
            &&& c.secure <==> wire.secure == Some(true)
            &&& c.same_site == wire.same_site
        }),
{
}

/// An answer of success says `ok` and its message, one of failure `error` and its message behind
/// `Error: `; neither says more.
pub proof fn law_plain_answers(message: Seq<char>)
    ensures
        ok_answer(message).status == "ok"@,
        ok_answer(message).message == message,
        error_answer(message).status == "error"@,
        error_answer(message).message == "Error: "@ + message,
        ok_answer(message).version == "3.3.21"@,
        error_answer(message).version == "3.3.21"@,
        ok_answer(message).solution is None && error_answer(message).solution is None,
        ok_answer(message).session is None && error_answer(message).session is None,
        ok_answer(message).sessions is None && error_answer(message).sessions is None,
        ok_answer(message).start_timestamp == 0 && error_answer(message).start_timestamp == 0,
        ok_answer(message).end_timestamp == 0 && error_answer(message).end_timestamp == 0,
{
}

/// A fetch may take as long as the request says, and a minute where it says nothing or zero.
pub proof fn law_requested_time_is_allowed(ms: u32)
    ensures
        ms > 0 ==> max_timeout_ms(Some(ms)) == ms,
        max_timeout_ms(Some(0)) == 60_000,
        max_timeout_ms(None) == 60_000,
{
}

/// Each parameter that is not honored brings its own warning, and no other does; the warnings
/// stand in a fixed order.
pub proof fn law_each_ignored_parameter_is_warned_of(req: V1Request)
    ensures
        req.deprecated() == (if req.headers is Some {
            seq!["Deprecated: 'headers' was removed in FlareSolverr v2"@]
        } else {
            seq![]
        }) + (if req.user_agent is Some {
            seq!["Deprecated: 'userAgent' was removed in FlareSolverr v2"@]
        } else {
            seq![]
        }) + (if req.return_raw_html is Some {
            seq!["Deprecated: 'returnRawHtml' was removed in FlareSolverr v2"@]
        } else {
            seq![]
        }) + (if req.download is Some {
            seq!["Deprecated: 'download' was removed in FlareSolverr v2"@]
        } else {
            seq![]
        }),
        req.ignored() == req.deprecated() + (if req.proxy is Some {
            seq!["Per-request 'proxy' is ignored; upstream proxy is configured globally via env"@]
        } else {
            seq![]
        }) + (if req.session_ttl_minutes is Some {
            seq!["'session_ttl_minutes' on request.get/post is ignored; set it on sessions.create"@]
        } else {
            seq![]
        }),
{
}

proof fn lemma_commands_differ()
    ensures
        "request.get"@ != "request.post"@,
        "request.get"@ != "sessions.create"@,
        "request.get"@ != "sessions.list"@,
        "request.get"@ != "sessions.destroy"@,
        "request.post"@ != "sessions.create"@,
        "request.post"@ != "sessions.list"@,
        "request.post"@ != "sessions.destroy"@,
        "sessions.create"@ != "sessions.list"@,
        "sessions.create"@ != "sessions.destroy"@,
        "sessions.list"@ != "sessions.destroy"@,
{
    reveal_strlit("request.get");
    reveal_strlit("request.post");
    reveal_strlit("sessions.create");
    reveal_strlit("sessions.list");
    reveal_strlit("sessions.destroy");
    assert("request.get"@.len() == 11);
    assert("request.post"@.len() == 12);
    assert("sessions.create"@.len() == 15);
    assert("sessions.list"@.len() == 13);
    assert("sessions.destroy"@.len() == 16);
}

/// Whether an action refuses, with that message in the answer.
pub open spec fn refuses_with(a: V1Action, message: Seq<char>) -> bool {
    a is Refuse && is_error(a->Refuse_0, message)
}

/// A GET request fetches its URL, for the cookies alone only if it says so. It needs a URL and
/// takes no form data.
pub proof fn law_get_request(req: V1Request, a: V1Action)
    requires
        req.cmd@ == "request.get"@,
        a.is_asked_by(req),
    ensures
        req.url is Some && req.post_data is None ==> {
            &&& a is Fetch
            &&& a->Fetch_0.url@ == req.url->0@
            &&& a->Fetch_0.op is Get
            &&& a->Fetch_0.op->return_only_cookies <==> req.return_only_cookies == Some(true)
        },
        req.url is None ==> refuses_with(
            a,
            "Error: "@ + "Parameter 'url' is mandatory for request.get"@,
        ),
        req.url is Some && req.post_data is Some ==> refuses_with(
            a,
            "Error: "@ + "Cannot use 'postData' with GET request"@,
        ),
{
}

/// A POST request submits its form data to its URL. It needs both.
pub proof fn law_post_request(req: V1Request, a: V1Action)
    requires
        req.cmd@ == "request.post"@,
        a.is_asked_by(req),
    ensures
        req.url is Some && req.post_data is Some ==> {
            &&& a is Fetch
            &&& a->Fetch_0.url@ == req.url->0@
            &&& a->Fetch_0.op is Post
            &&& a->Fetch_0.op->post_data@ == req.post_data->0@
        },
        req.url is None ==> refuses_with(
            a,
            "Error: "@ + "Parameter 'url' is mandatory for request.post"@,
        ),
        req.url is Some && req.post_data is None ==> refuses_with(
            a,
            "Error: "@ + "Parameter 'postData' is mandatory for request.post"@,
        ),
{
    lemma_commands_differ();
}

/// The requests on sessions ask for what they are named after, and any other command is refused.
pub proof fn law_other_requests(req: V1Request, a: V1Action)
    requires
        a.is_asked_by(req),
    ensures
        req.cmd@ == "sessions.create"@ ==> a == (V1Action::Create {
            ttl_minutes: req.session_ttl_minutes,
        }),
        req.cmd@ == "sessions.list"@ ==> a is List,
        req.cmd@ == "sessions.destroy"@ && req.session is Some ==> a is Destroy && a->id@
            == req.session->0@,
        req.cmd@ == "sessions.destroy"@ && req.session is None ==> refuses_with(
            a,
            "Error: "@ + "Parameter 'session' is mandatory for sessions.destroy"@,
        ),
        req.cmd@.len() == 0 ==> refuses_with(a, "Error: "@ + "Parameter 'cmd' is mandatory"@),
        req.cmd@.len() > 0 && req.cmd@ != "request.get"@ && req.cmd@ != "request.post"@ && req.cmd@
            != "sessions.create"@ && req.cmd@ != "sessions.list"@ && req.cmd@ != "sessions.destroy"@
            ==> refuses_with(a, "Error: "@ + ("Unknown command: "@ + req.cmd@)),
{
    lemma_commands_differ();
    reveal_strlit("request.get");
    reveal_strlit("request.post");
    reveal_strlit("sessions.create");
    reveal_strlit("sessions.list");
    reveal_strlit("sessions.destroy");
    assert("request.get"@.len() == 11);
    assert("request.post"@.len() == 12);
    assert("sessions.create"@.len() == 15);
    assert("sessions.list"@.len() == 13);
    assert("sessions.destroy"@.len() == 16);
}

/// Each fetch adds one to the count of fetches, and each failed one adds one to that of failures.
/// The time of the last success and the time and reason of the last failure are those of the last
/// such fetch.
pub proof fn law_record_grows_by_one(
    fetches: Seq<(Timestamp, Option<Seq<char>>)>,
    at: Timestamp,
    reason: Seq<char>,
)
    ensures
        ({
            let before = history(fetches);
            let good = history(fetches.push((at, None)));
            let bad = history(fetches.push((at, Some(reason))));
            &&& good.fetches_total as nat == (before.fetches_total + 1) % 0x1_0000_0000_0000_0000
            &&& good.fetches_failed == before.fetches_failed
            &&& good.last_success_at == Some(at)
            &&& good.last_failure == before.last_failure
            &&& bad.fetches_total as nat == (before.fetches_total + 1) % 0x1_0000_0000_0000_0000
            &&& bad.fetches_failed as nat == (before.fetches_failed + 1) % 0x1_0000_0000_0000_0000
            &&& bad.last_success_at == before.last_success_at
            &&& bad.last_failure == Some((at, reason))
        }),
        history(Seq::empty()).fetches_total == 0,
        history(Seq::empty()).fetches_failed == 0,
        history(Seq::empty()).last_success_at is None,
        history(Seq::empty()).last_failure is None,
{
    assert(fetches.push((at, None)).drop_last() =~= fetches);
    assert(fetches.push((at, Some(reason))).drop_last() =~= fetches);
}

/// The record says what its fields say.
pub proof fn law_health_view_tells_the_fields(h: HealthState)
    ensures
        h@.fetches_total == h.fetches_total,
        h@.fetches_failed == h.fetches_failed,
        h@.last_success_at == h.last_success_at,
        h.last_failure is None ==> h@.last_failure is None,
        h.last_failure is Some ==> h@.last_failure == Some(
            (h.last_failure->0.at, h.last_failure->0.reason@),
        ),
{
}

/// What is told of the last failure are its own time and its own reason.
pub proof fn law_last_failure_is_told(h: HealthView, at: Timestamp, reason: Seq<char>)
    ensures
        h.last_failure == Some((at, reason)) ==> h.failure_text() == Some(reason)
            && h.failure_time() == rfc3339_text(at.secs, at.nanos),
        h.last_failure is None ==> h.failure_text() is None && h.failure_time() is None,
        told_time(Some(at)) == rfc3339_text(at.secs, at.nanos),
        told_time(None) is None,
{
}

/// A request means the session that it names, and the default one where it names none.
pub proof fn law_request_means_its_session(req: V1Request)
    ensures
        req.session is Some ==> requested_session(req) == req.session->0@,
        req.session is None ==> requested_session(req) == "default"@,
{
}

/// A fetch begins with what was found for its session, where something was, with its own data
/// else; the default session always begins with its own. The cookies that the request brings
/// change nothing but the cookies.
pub proof fn law_fetch_begins_with_the_session(
    state: SessionView,
    id: Seq<char>,
    found: Result<Option<SessionData>, String>,
    incoming: Option<Vec<FlaresolverrCookie>>,
)
    ensures
        ({
            let begun = readied(state, id, found, None);
            let r = readied(state, id, found, incoming);
            &&& id == "default"@ ==> begun == state
            &&& id != "default"@ ==> {
                &&& found matches Ok(Some(data)) ==> begun == data@
                &&& !(found matches Ok(Some(_))) ==> begun == state
            }
            &&& r.user_agent == begun.user_agent
            &&& r.clearance_fetched_at == begun.clearance_fetched_at
            &&& r.clearance_host == begun.clearance_host
        }),
{
}

/// The cookies that a request brings are taken in one after the other.
pub proof fn law_brought_cookies_are_taken_in_order(
    state: SessionView,
    id: Seq<char>,
    found: Result<Option<SessionData>, String>,
    fewer: Vec<FlaresolverrCookie>,
    incoming: Vec<FlaresolverrCookie>,
    c: FlaresolverrCookie,
)
    requires
        incoming@ == fewer@.push(c),
    ensures
        fewer@.len() == 0 ==> readied(state, id, found, Some(fewer)).cookies == readied(
            state,
            id,
            found,
            None,
        ).cookies,
        readied(state, id, found, Some(incoming)).cookies == upserted(
            readied(state, id, found, Some(fewer)).cookies,
            from_wire(c@),
        ),
{
    let newer = wire_cookies(incoming@).map_values(|c: WireCookie| from_wire(c));
    let less = wire_cookies(fewer@).map_values(|c: WireCookie| from_wire(c));
    assert(newer.len() == incoming@.len());
    assert(newer.last() == from_wire(c@));
    assert(newer.drop_last() =~= less);
}

/// A fetch that does what was ordered has the URL of the order, its kind and its form data.
pub proof fn law_orders_are_followed(run: FetchRun, order: FetchOrder)
    requires
        does(run, order),
    ensures
        run.url@ == order.url@,
        order.op is Get ==> run.op is Get && run.op->return_only_cookies
            == order.op->return_only_cookies,
        order.op is Post ==> run.op is Post && run.op->post_data@ == order.op->post_data@,
{
}

/// A fetch that outlasts its time fails with the time that it was given, in milliseconds; one that
/// does not keeps its own result.
pub proof fn law_limit_is_told(budget: Duration, result: Result<FetchResponse, String>)
    ensures
        limited(budget, None) == Err::<FetchView, Seq<char>>(
            "request exceeded maxTimeout of "@ + decimal(duration_nanos(budget) / 1_000_000)
                + "ms"@,
        ),
        result is Ok ==> limited(budget, Some(result)) == Ok::<FetchView, Seq<char>>(
            result->Ok_0@,
        ),
        result is Err ==> limited(budget, Some(result)) == Err::<FetchView, Seq<char>>(
            result->Err_0@,
        ),
{
}

/// The record of a failed fetch gives its URL and its error; a fetch that succeeded has none.
pub proof fn law_failures_are_recorded_with_their_url(
    url: Seq<char>,
    response: FetchView,
    e: Seq<char>,
)
    ensures
        failure_reason(url, Ok(response)) is None,
        failure_reason(url, Err(e)) == Some(url + ": "@ + e),
{
}

/// The answer to a fetch tells what the fetch gave: its URL, its status, its body, its user agent
/// and its cookies with their attributes, in order, for the session that it was made for. Of a
/// fetch that failed it tells the error and nothing else.
pub proof fn law_answer_tells_the_result(
    answer: V1Response,
    id: Seq<char>,
    result: Result<FetchResponse, String>,
)
    requires
        answer@ == fetch_answer(id, result_view(result)),
    ensures
        result matches Ok(response) ==> {
            &&& answer.status@ == "ok"@
            &&& answer.message@ == "Challenge solved!"@
            &&& answer.version@ == "3.3.21"@
            &&& answer.session is Some
            &&& answer.session->0@ == id
            &&& answer.sessions is None
            &&& answer.solution is Some
            &&& answer.solution->0.url@ == response.url@
            &&& answer.solution->0.status == response.status
            &&& answer.solution->0.headers@.len() == 0
            &&& answer.solution->0.response@ == response.body@
            &&& answer.solution->0.user_agent@ == response.user_agent@
            &&& answer.solution->0.cookies@.len() == response.cookies@.len()
            &&& forall|i: int|
                0 <= i < response.cookies@.len() ==> sends(
                    #[trigger] answer.solution->0.cookies@[i],
                    response.cookies@[i],
                )
        },
        result matches Err(e) ==> is_error(answer, "Error: "@ + ("Challenge failed: "@ + e@)),
{
    if let Ok(response) = result {
        let told = answer.solution->0;
        let sent = cookie_views(response.cookies@).map_values(|c: CookieView| to_wire(c));
        assert(answer@.solution == Some(told@));
        assert(told@.cookies == sent);
        assert(told@.cookies.len() == told.cookies@.len());
        assert(told@.headers.len() == told.headers@.len());
        assert forall|i: int| 0 <= i < response.cookies@.len() implies sends(
            #[trigger] told.cookies@[i],
            response.cookies@[i],
        ) by {
            assert(told@.cookies[i] == told.cookies@[i]@);
            assert(sent[i] == to_wire(response.cookies@[i]@));
        }
    }
}

/// The number that is reported for a cleared page is the status of the solution that is served
/// for it, whatever number it is, as long as it fits a status.
pub proof fn law_reported_number_is_served(
    run: FetchRun,
    state: SessionData,
    outcome: ClearanceOutcome,
    html: Seq<char>,
    n: u64,
    reply: ChaserResult<SourceResponse>,
    step: FetchStep,
    id: Seq<char>,
    answer: V1Response,
)
    requires
        n <= 65535,
        outcome is Solved || outcome is NotCloudflare,
        page_gives(outcome, html, Some(n), reply),
        run.page_answer(state@, reply, step),
        answer@ == fetch_answer(id, Ok(step->Respond_0@)),
    ensures
        reply is Ok,
        reply->Ok_0.status == Some(n as u16),
        answer.solution is Some,
        answer.solution->0.status == n,
        answer.solution->0.response@ == html,
{
    assert(answer@.solution == Some(answer.solution->0@));
}

} // verus!
