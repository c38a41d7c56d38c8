//! The fetch pipeline, between one call into the browser and the next.
//!
//! Clearance and user agent come from a solved challenge and are kept on the session for a
//! while; the body always comes from a fresh page.
use crate::chaser::{header_value, law_first_header_counts, Stage, WafCookie, WafSummary};
use crate::cf::solver::{is_unsolved, is_unsolved_challenge, page_gives, ClearanceOutcome};
use crate::clock::{clock_shows, now_seconds};
use crate::config::SessionConfig;
use crate::cookies::{
    clone_cookies, cookie_views, law_equal_views_have_equal_attributes, same_attributes,
    upsert_cookie, upserted, upserted_all, CookieView, StoredCookie,
};
use crate::error::{ChaserError, ChaserResult};
use crate::models::SourceResponse;
use crate::session::{SessionData, SessionView};
use crate::text::{opt_eq, opt_text, same_ignoring_ascii_case};
use vstd::prelude::*;

verus! {

/// What a fetch gives back.
#[derive(Debug)]
pub struct FetchResponse {
    pub url: String,
    pub status: u16,
    pub body: String,
    pub cookies: Vec<StoredCookie>,
    pub user_agent: String,
}

/// What the response of a fetch says.
pub ghost struct FetchView {
    pub url: Seq<char>,
    pub status: u16,
    pub body: Seq<char>,
    pub cookies: Seq<CookieView>,
    pub user_agent: Seq<char>,
}

impl View for FetchResponse {
    type V = FetchView;

    open spec fn view(&self) -> FetchView {
        FetchView {
            url: self.url@,
            status: self.status,
            body: self.body@,
            cookies: cookie_views(self.cookies@),
            user_agent: self.user_agent@,
        }
    }
}

/// The status that is told where the browser did not tell one.
pub const DEFAULT_HTTP_STATUS: u16 = 200;

/// The host that the url crate finds in a text: `None` for a text that is no absolute URL, and
/// for a URL without a host.
pub uninterp spec fn url_host(url: Seq<char>) -> Option<Seq<char>>;

/// `url::Url::parse`, then `Url::host_str` of what it parsed.
#[verifier::external_body]
fn parse_host(url: &str) -> (r: Option<String>)
    ensures
        opt_text(r) == url_host(url@),
{
    url::Url::parse(url).ok().and_then(|u| u.host_str().map(String::from))
}

/// The host of a URL.
pub fn host_of(url: &str) -> (r: Option<String>)
    ensures
        opt_text(r) == url_host(url@),
{
    parse_host(url)
}

/// Whether the kept clearance cannot be used at a time: it is for another host, was never
/// fetched, lies in the future, or has reached its age.
pub open spec fn refresh_due(
    state: SessionView,
    ttl_seconds: i64,
    host: Option<Seq<char>>,
    now: i64,
) -> bool {
    ||| state.clearance_host != host
    ||| match state.clearance_fetched_at {
        Some(at) => now - at < 0 || now - at >= ttl_seconds,
        None => true,
    }
}

/// Decides whether a clearance has to be fetched anew.
pub fn needs_refresh_at(
    state: &SessionData,
    cfg: &SessionConfig,
    host: &Option<String>,
    now: i64,
) -> (r: bool)
    ensures
        r == refresh_due(state@, cfg.clearance_ttl_seconds, opt_text(*host), now),
        !r <==> {
            &&& state.clearance_host is Some <==> host is Some
            &&& host is Some ==> state.clearance_host->0@ == host->0@
            &&& state.clearance_fetched_at is Some
            &&& state.clearance_fetched_at->0 <= now
            &&& now < state.clearance_fetched_at->0 + cfg.clearance_ttl_seconds
        },
{
    if !opt_eq(&state.clearance_host, host) {
        return true;
    }
    match state.clearance_fetched_at {
        Some(at) => {
            let age: i128 = now as i128 - at as i128;
            age < 0 || age >= cfg.clearance_ttl_seconds as i128
        },
        None => true,
    }
}

/// Decides whether a clearance has to be fetched anew at the present time.
pub fn needs_refresh(state: &SessionData, cfg: &SessionConfig, host: &Option<String>) -> (r: bool)
    ensures
        exists|now: i64|
            clock_shows(now) && r == #[trigger] refresh_due(
                state@,
                cfg.clearance_ttl_seconds,
                opt_text(*host),
                now,
            ),
{
    let now = now_seconds();
    needs_refresh_at(state, cfg, host, now)
}

/// A cookie of a solved challenge as the session keeps it: the host stands in for a missing
/// domain, the root for a missing path, and what is not said to be set is not set. The expiry -1,
/// which the browser reports of a cookie without one, makes it a session cookie.
pub open spec fn kept_cookie(c: WafCookie, host: Option<Seq<char>>) -> CookieView {
    CookieView {
        name: c.name@,
        value: c.value@,
        domain: match c.domain {
            Some(d) => Some(d@),
            None => host,
        },
        path: match c.path {
            Some(p) => Some(p@),
            None => Some("/"@),
        },
        expires: match c.expires {
            Some(e) => if e == -1 {
                None
            } else {
                Some(e)
            },
            None => None,
        },
        http_only: c.http_only == Some(true),
        secure: c.secure == Some(true),
        same_site: opt_text(c.same_site),
    }
}

/// The cookies of a solved challenge as the session keeps them.
pub open spec fn kept_cookies(cookies: Seq<WafCookie>, host: Option<Seq<char>>) -> Seq<CookieView> {
    cookies.map_values(|c: WafCookie| kept_cookie(c, host))
}

/// A session that took over what a solved challenge left behind.
pub open spec fn waf_applied(
    state: SessionView,
    summary: WafSummary,
    host: Option<Seq<char>>,
) -> SessionView {
    SessionView {
        user_agent: match header_value(summary.headers@, "user-agent"@) {
            Some(ua) => ua,
            None => state.user_agent,
        },
        cookies: upserted_all(state.cookies, kept_cookies(summary.cookies@, host)),
        ..state
    }
}

fn keep_cookie(c: &WafCookie, host: &Option<String>) -> (r: StoredCookie)
    ensures
        r@ == kept_cookie(*c, opt_text(*host)),
{
    StoredCookie {
        name: c.name.clone(),
        value: c.value.clone(),
        domain: match &c.domain {
            Some(d) => Some(d.clone()),
            None => host.clone(),
        },
        path: match &c.path {
            Some(p) => Some(p.clone()),
            None => Some("/".to_owned()),
        },
        expires: match c.expires {
            Some(e) => if e == -1 {
                None
            } else {
                Some(e)
            },
            None => None,
        },
        http_only: match c.http_only {
            Some(b) => b,
            None => false,
        },
        secure: match c.secure {
            Some(b) => b,
            None => false,
        },
        same_site: c.same_site.clone(),
    }
}

/// Takes over what a solved challenge left behind.
pub fn apply_waf_session(state: &mut SessionData, summary: &WafSummary, host: &Option<String>)
    ensures
        final(state)@ == waf_applied(old(state)@, *summary, opt_text(*host)),
        final(state).clearance_fetched_at == old(state).clearance_fetched_at,
        final(state).clearance_host == old(state).clearance_host,
{
    if let Some(ua) = summary.user_agent() {
        state.user_agent = ua.to_owned();
    }
    let ghost before = cookie_views(state.cookies@);
    let ghost kept = kept_cookies(summary.cookies@, opt_text(*host));
    let ghost untouched = *state;
    let mut i: usize = 0;
    assert(kept.take(0) =~= Seq::<CookieView>::empty());
    while i < summary.cookies.len()
        invariant
            i <= summary.cookies@.len(),
            kept == kept_cookies(summary.cookies@, opt_text(*host)),
            cookie_views(state.cookies@) == upserted_all(before, kept.take(i as int)),
            *state == (SessionData { cookies: state.cookies, ..untouched }),
        decreases summary.cookies@.len() - i,
    {
        let c = keep_cookie(&summary.cookies[i], host);
        assert(c@ == kept[i as int]);
        upsert_cookie(&mut state.cookies, c);
        assert(kept.take(i + 1).drop_last() =~= kept.take(i as int));
        i += 1;
    }
    assert(kept.take(kept.len() as int) =~= kept);
}

/// What a fetch is to do.
#[derive(Debug)]
pub enum FetchOp {
    Get { return_only_cookies: bool },
    Post { post_data: String },
}

/// A fetch under way: its target, the target's host, and what it is to do.
#[derive(Debug)]
pub struct FetchRun {
    pub url: String,
    pub host: Option<String>,
    pub op: FetchOp,
}

/// What comes next in a fetch.
#[derive(Debug)]
pub enum FetchStep {
    /// Have the challenge solved, then report to `on_waf`.
    SolveWaf,
    /// Load the page, then report to `on_page`.
    LoadSource,
    /// Post the form data, then report to `on_page`.
    SubmitPost,
    /// The fetch is over with a response.
    Respond(FetchResponse),
    /// The fetch is over with an error.
    Fail(String),
}

impl FetchRun {
    /// The stage that a failure to get the page belongs to.
    pub open spec fn page_stage(self) -> Stage {
        match self.op {
            FetchOp::Get { .. } => Stage::Source,
            FetchOp::Post { .. } => Stage::Post,
        }
    }

    /// Whether only cookies are asked for.
    pub open spec fn wants_only_cookies(self) -> bool {
        self.op == (FetchOp::Get { return_only_cookies: true })
    }

    /// A response of the session's cookies and user agent with that status and body.
    pub open spec fn response(self, state: SessionView, status: u16, body: Seq<char>) -> FetchView {
        FetchView {
            url: self.url@,
            status,
            body,
            cookies: state.cookies,
            user_agent: state.user_agent,
        }
    }

    /// Whether `step` goes on from a usable clearance: with the answer where only cookies are
    /// asked for, else with the page.
    pub open spec fn goes_on(self, state: SessionView, step: FetchStep) -> bool {
        match self.op {
            FetchOp::Get { return_only_cookies } => if return_only_cookies {
                step is Respond && step->Respond_0@ == self.response(
                    state,
                    DEFAULT_HTTP_STATUS,
                    Seq::empty(),
                )
            } else {
                step is LoadSource
            },
            FetchOp::Post { .. } => step is SubmitPost,
        }
    }

    /// Whether `step` is the right start of the fetch at a time.
    pub open spec fn starts(
        self,
        state: SessionView,
        ttl_seconds: i64,
        now: i64,
        step: FetchStep,
    ) -> bool {
        if refresh_due(state, ttl_seconds, opt_text(self.host), now) {
            step is SolveWaf
        } else {
            self.goes_on(state, step)
        }
    }

    /// The session once a challenge was attempted at a time: with what it left behind, if
    /// anything, and with the attempt on record either way.
    pub open spec fn after_waf(
        self,
        state: SessionView,
        reply: ChaserResult<WafSummary>,
        now: i64,
    ) -> SessionView {
        SessionView {
            clearance_fetched_at: Some(now),
            clearance_host: opt_text(self.host),
            ..match reply {
                Ok(summary) => waf_applied(state, summary, opt_text(self.host)),
                Err(_) => state,
            }
        }
    }

    /// Whether `step` is the right one after a challenge was attempted. A failed attempt does
    /// not stop a fetch, for the page itself may still be got; but where only cookies are asked
    /// for, an unsolved challenge ends it with an error.
    pub open spec fn waf_answer(
        self,
        state: SessionView,
        reply: ChaserResult<WafSummary>,
        step: FetchStep,
    ) -> bool {
        match reply {
            Err(e) => if self.wants_only_cookies() && is_unsolved(e) {
                step is Fail && step->Fail_0@ == Stage::WafSession.prefix() + e.text()
            } else {
                self.goes_on(state, step)
            },
            Ok(_) => self.goes_on(state, step),
        }
    }

    /// Whether `step` is the right end of the fetch once the page was got, or not.
    pub open spec fn page_answer(
        self,
        state: SessionView,
        reply: ChaserResult<SourceResponse>,
        step: FetchStep,
    ) -> bool {
        match reply {
            Ok(page) => step is Respond && step->Respond_0@ == self.response(
                state,
                match page.status {
                    Some(status) => status,
                    None => DEFAULT_HTTP_STATUS,
                },
                page.html@,
            ),
            Err(e) => step is Fail && step->Fail_0@ == self.page_stage().prefix() + e.text(),
        }
    }

    /// A fetch of a URL.
    pub fn new(url: &str, op: FetchOp) -> (r: FetchRun)
        ensures
            r.url@ == url@,
            opt_text(r.host) == url_host(url@),
            r.op == op,
    {
        FetchRun { url: url.to_owned(), host: host_of(url), op }
    }

    fn respond(&self, state: &SessionData, status: u16, body: String) -> (r: FetchResponse)
        ensures
            r@ == self.response(state@, status, body@),
    {
        FetchResponse {
            url: self.url.clone(),
            status,
            body,
            cookies: clone_cookies(&state.cookies),
            user_agent: state.user_agent.clone(),
        }
    }

    fn go_on(&self, state: &SessionData) -> (r: FetchStep)
        ensures
            self.goes_on(state@, r),
    {
        match &self.op {
            FetchOp::Get { return_only_cookies } => if *return_only_cookies {
                FetchStep::Respond(self.respond(state, DEFAULT_HTTP_STATUS, String::new()))
            } else {
                FetchStep::LoadSource
            },
            FetchOp::Post { .. } => FetchStep::SubmitPost,
        }
    }

    /// The first step of the fetch at a time.
    pub fn begin_at(&self, state: &SessionData, cfg: &SessionConfig, now: i64) -> (r: FetchStep)
        ensures
            self.starts(state@, cfg.clearance_ttl_seconds, now, r),
    {
        if needs_refresh_at(state, cfg, &self.host, now) {
            FetchStep::SolveWaf
        } else {
            self.go_on(state)
        }
    }

    /// Takes the outcome of a challenge that was attempted, at a time. A failed attempt counts
    /// as an attempt all the same.
    pub fn on_waf_at(
        &self,
        state: &mut SessionData,
        reply: ChaserResult<WafSummary>,
        now: i64,
    ) -> (r: FetchStep)
        ensures
            final(state)@ == self.after_waf(old(state)@, reply, now),
            self.waf_answer(final(state)@, reply, r),
            final(state).clearance_fetched_at == Some(now),
            final(state).clearance_host is Some <==> self.host is Some,
            self.host is Some ==> final(state).clearance_host->0@ == self.host->0@,
            reply is Err ==> final(state).cookies == old(state).cookies && final(state).user_agent
                == old(state).user_agent,
    {
        let unsolved = match &reply {
            Ok(summary) => {
                apply_waf_session(state, summary, &self.host);
                None
            },
            Err(e) => if is_unsolved_challenge(e) {
                Some(Stage::WafSession.describe(e))
            } else {
                None
            },
        };
        state.clearance_fetched_at = Some(now);
        state.clearance_host = self.host.clone();
        if let FetchOp::Get { return_only_cookies } = &self.op {
            if *return_only_cookies {
                if let Some(message) = unsolved {
                    return FetchStep::Fail(message);
                }
            }
        }
        self.go_on(state)
    }

    /// Takes the outcome of a challenge that was just attempted.
    pub fn on_waf(&self, state: &mut SessionData, reply: ChaserResult<WafSummary>) -> (r: FetchStep)
        ensures
            exists|now: i64|
                clock_shows(now) && final(state)@ == #[trigger] self.after_waf(
                    old(state)@,
                    reply,
                    now,
                ),
            self.waf_answer(final(state)@, reply, r),
    {
        let now = now_seconds();
        let ghost before = state@;
        let step = self.on_waf_at(state, reply, now);
        assert(state@ == self.after_waf(before, reply, now));
        step
    }

    /// Takes the page, or the failure to get it.
    pub fn on_page(&self, state: &SessionData, reply: ChaserResult<SourceResponse>) -> (r: FetchStep)
        ensures
            self.page_answer(state@, reply, r),
    {
        match reply {
            Ok(page) => {
                let status = match page.status {
                    Some(status) => status,
                    None => DEFAULT_HTTP_STATUS,
                };
                FetchStep::Respond(self.respond(state, status, page.html))
            },
            Err(e) => match &self.op {
                FetchOp::Get { .. } => FetchStep::Fail(Stage::Source.describe(&e)),
                FetchOp::Post { .. } => FetchStep::Fail(Stage::Post.describe(&e)),
            },
        }
    }
}

/// Starts a GET fetch for a session now.
pub fn fetch(
    cfg: &SessionConfig,
    state: &SessionData,
    url: &str,
    return_only_cookies: bool,
) -> (r: (FetchRun, FetchStep))
    ensures
        r.0.url@ == url@,
        opt_text(r.0.host) == url_host(url@),
        r.0.op == (FetchOp::Get { return_only_cookies }),
        exists|now: i64|
            clock_shows(now) && #[trigger] r.0.starts(
                state@,
                cfg.clearance_ttl_seconds,
                now,
                r.1,
            ),
{
    let run = FetchRun::new(url, FetchOp::Get { return_only_cookies });
    let now = now_seconds();
    let step = run.begin_at(state, cfg, now);
    let r = (run, step);
    assert(r.0.starts(state@, cfg.clearance_ttl_seconds, now, r.1));
    r
}

/// Starts a POST fetch for a session now.
pub fn fetch_post(cfg: &SessionConfig, state: &SessionData, url: &str, post_data: &str) -> (r: (
    FetchRun,
    FetchStep,
))
    ensures
        r.0.url@ == url@,
        opt_text(r.0.host) == url_host(url@),
        r.0.op is Post,
        r.0.op->post_data@ == post_data@,
        exists|now: i64|
            clock_shows(now) && #[trigger] r.0.starts(
                state@,
                cfg.clearance_ttl_seconds,
                now,
                r.1,
            ),
{
    let run = FetchRun::new(url, FetchOp::Post { post_data: post_data.to_owned() });
    let now = now_seconds();
    let step = run.begin_at(state, cfg, now);
    let r = (run, step);
    assert(r.0.starts(state@, cfg.clearance_ttl_seconds, now, r.1));
    r
}

/// A challenge is attempted at most once per session, host and window: once it was attempted for
/// a host, whatever came of it, no fetch from that host needs another attempt until the
/// clearance has reached its age, and every fetch from then on does.
pub proof fn law_one_attempt_per_window(
    run: FetchRun,
    later: FetchRun,
    state: SessionView,
    reply: ChaserResult<WafSummary>,
    ttl_seconds: i64,
    attempted: i64,
    now: i64,
)
    requires
        opt_text(later.host) == opt_text(run.host),
        attempted <= now,
    ensures
        refresh_due(
            run.after_waf(state, reply, attempted),
            ttl_seconds,
            opt_text(later.host),
            now,
        ) <==> now >= attempted + ttl_seconds,
{
}

/// A clearance is never used on another host than the one that it was fetched for.
pub proof fn law_other_host_needs_an_attempt(
    run: FetchRun,
    state: SessionView,
    reply: ChaserResult<WafSummary>,
    ttl_seconds: i64,
    attempted: i64,
    other: Option<Seq<char>>,
    now: i64,
)
    requires
        other != opt_text(run.host),
    ensures
        refresh_due(run.after_waf(state, reply, attempted), ttl_seconds, other, now),
{
}

/// A session that has fetched nothing yet needs an attempt, whatever the host.
pub proof fn law_fresh_session_needs_an_attempt(
    state: SessionView,
    ttl_seconds: i64,
    host: Option<Seq<char>>,
    now: i64,
)
    requires
        state.clearance_fetched_at is None,
    ensures
        refresh_due(state, ttl_seconds, host, now),
{
}

/// A fetch attempts the challenge once at most and gets the page once at most: after the attempt
/// it goes on without another, and after the page it is over.
pub proof fn law_a_fetch_ends(
    run: FetchRun,
    state: SessionView,
    waf: ChaserResult<WafSummary>,
    after_attempt: FetchStep,
    page: ChaserResult<SourceResponse>,
    after_page: FetchStep,
)
    requires
        run.waf_answer(state, waf, after_attempt),
        run.page_answer(state, page, after_page),
    ensures
        !(after_attempt is SolveWaf),
        after_page is Respond || after_page is Fail,
{
}

/// A clearance is used exactly from the moment it was fetched until it has reached its age, and
/// only on the host that it was fetched for.
pub proof fn law_clearance_is_used_in_its_window(
    state: SessionData,
    ttl_seconds: i64,
    host: Option<String>,
    now: i64,
)
    ensures
        !refresh_due(state@, ttl_seconds, opt_text(host), now) <==> {
            &&& state.clearance_host is Some <==> host is Some
            &&& host is Some ==> state.clearance_host->0@ == host->0@
            &&& state.clearance_fetched_at is Some
            &&& state.clearance_fetched_at->0 <= now
            &&& now < state.clearance_fetched_at->0 + ttl_seconds
        },
{
}

/// A cookie of a solved challenge is kept with each of its attributes. The host stands in for a
/// missing domain and the root for a missing path, the expiry -1 stands for none, and no other
/// expiry does.
pub proof fn law_kept_cookie_keeps_its_attributes(c: WafCookie, host: Option<Seq<char>>)
    ensures
        ({
            let kept = kept_cookie(c, host);
            &&& kept.name == c.name@
            &&& kept.value == c.value@
            &&& c.domain is Some ==> kept.domain == Some(c.domain->0@)
            &&& c.domain is None ==> kept.domain == host
            &&& c.path is Some ==> kept.path == Some(c.path->0@)
            &&& c.path is None ==> kept.path == Some("/"@)
            &&& kept.expires is None <==> c.expires is None || c.expires == Some(-1i64)
            &&& kept.expires is Some ==> kept.expires == c.expires
            &&& kept.http_only <==> c.http_only == Some(true)
            &&& kept.secure <==> c.secure == Some(true)
            &&& c.same_site is Some ==> kept.same_site == Some(c.same_site->0@)
            &&& c.same_site is None ==> kept.same_site is None
        }),
{
}

/// What a solved challenge left behind is taken over cookie by cookie, in order, each as the
/// session keeps it; where it left no cookies behind, those of the session stay. The clearance
/// itself is not touched.
pub proof fn law_left_cookies_are_taken_over(
    state: SessionView,
    fewer: WafSummary,
    summary: WafSummary,
    host: Option<Seq<char>>,
    c: WafCookie,
)
    requires
        summary.cookies@ == fewer.cookies@.push(c),
    ensures
        fewer.cookies@.len() == 0 ==> waf_applied(state, fewer, host).cookies == state.cookies,
        waf_applied(state, summary, host).cookies == upserted(
            waf_applied(state, fewer, host).cookies,
            kept_cookie(c, host),
        ),
        waf_applied(state, summary, host).clearance_fetched_at == state.clearance_fetched_at,
        waf_applied(state, summary, host).clearance_host == state.clearance_host,
{
    let kept = kept_cookies(summary.cookies@, host);
    assert(kept.len() == summary.cookies@.len());
    assert(kept.last() == kept_cookie(c, host));
    assert(kept.drop_last() =~= kept_cookies(fewer.cookies@, host));
}

/// The session takes over the user agent that the challenge was solved with: the value of the
/// first header of that name. Where there is no such header, it keeps its own.
pub proof fn law_solving_user_agent_is_taken_over(
    state: SessionView,
    summary: WafSummary,
    host: Option<Seq<char>>,
    i: int,
)
    requires
        0 <= i <= summary.headers@.len(),
        forall|j: int|
            0 <= j < i ==> !same_ignoring_ascii_case(
                (#[trigger] summary.headers@[j]).0@,
                "user-agent"@,
            ),
    ensures
        i == summary.headers@.len() ==> waf_applied(state, summary, host).user_agent
            == state.user_agent,
        i < summary.headers@.len() && same_ignoring_ascii_case(
            summary.headers@[i].0@,
            "user-agent"@,
        ) ==> waf_applied(state, summary, host).user_agent == summary.headers@[i].1@,
{
    let headers = summary.headers@;
    let before = headers.take(i);
    assert forall|j: int| 0 <= j < before.len() implies !same_ignoring_ascii_case(
        (#[trigger] before[j]).0@,
        "user-agent"@,
    ) by {
        assert(before[j] == headers[j]);
    }
    if i < headers.len() {
        law_first_header_counts(before, headers[i], headers.skip(i + 1), "user-agent"@);
        assert(before + seq![headers[i]] + headers.skip(i + 1) =~= headers);
    } else {
        assert(before =~= headers);
        if headers.len() > 0 {
            law_first_header_counts(before, headers[0], before, "user-agent"@);
        }
    }
}

/// An attempt leaves its time and its host on the session, whatever came of it, and a failed one
/// leaves nothing else.
pub proof fn law_attempts_are_on_record(
    run: FetchRun,
    state: SessionView,
    reply: ChaserResult<WafSummary>,
    now: i64,
)
    ensures
        ({
            let after = run.after_waf(state, reply, now);
            &&& after.clearance_fetched_at == Some(now)
            &&& run.host is Some ==> after.clearance_host == Some(run.host->0@)
            &&& run.host is None ==> after.clearance_host is None
            &&& reply is Err ==> after.cookies == state.cookies && after.user_agent
                == state.user_agent
            &&& reply is Ok ==> {
                let applied = waf_applied(state, reply->Ok_0, opt_text(run.host));
                after.cookies == applied.cookies && after.user_agent == applied.user_agent
            }
        }),
{
}

/// Whether a response tells of a session: its cookies with their attributes, in order, and its
/// user agent.
pub open spec fn tells_of(response: FetchResponse, state: SessionData) -> bool {
    &&& response.user_agent@ == state.user_agent@
    &&& response.cookies@.len() == state.cookies@.len()
    &&& forall|i: int|
        0 <= i < state.cookies@.len() ==> same_attributes(
            #[trigger] response.cookies@[i],
            state.cookies@[i],
        )
}

/// With a usable clearance a POST is submitted, a GET loads its page, and one that asks for
/// cookies alone is answered at once, with status 200 and no body.
pub proof fn law_usable_clearance_leads_on(run: FetchRun, state: SessionData, step: FetchStep)
    requires
        run.goes_on(state@, step),
    ensures
        run.op is Post ==> step is SubmitPost,
        run.op is Get && !run.op->return_only_cookies ==> step is LoadSource,
        run.op is Get && run.op->return_only_cookies ==> {
            &&& step is Respond
            &&& step->Respond_0.url@ == run.url@
            &&& step->Respond_0.status == 200
            &&& step->Respond_0.body@.len() == 0
            &&& tells_of(step->Respond_0, state)
        },
{
    if run.op is Get && run.op->return_only_cookies {
        law_equal_views_have_equal_attributes(step->Respond_0.cookies@, state.cookies@);
    }
}

/// A fetch starts with the challenge exactly if the clearance cannot be used, and goes on from it
/// else.
pub proof fn law_fetch_starts_with_the_clearance(
    run: FetchRun,
    state: SessionData,
    ttl_seconds: i64,
    now: i64,
    step: FetchStep,
)
    requires
        run.starts(state@, ttl_seconds, now, step),
    ensures
        step is SolveWaf <==> refresh_due(state@, ttl_seconds, opt_text(run.host), now),
        !(step is SolveWaf) ==> run.goes_on(state@, step),
        !(step is Fail),
{
}

/// An attempt ends a fetch with an error exactly if it left the challenge unsolved and only
/// cookies are asked for; the error tells why. In every other case the fetch goes on.
pub proof fn law_only_cookies_need_a_solved_challenge(
    run: FetchRun,
    state: SessionData,
    reply: ChaserResult<WafSummary>,
    step: FetchStep,
)
    requires
        run.waf_answer(state@, reply, step),
    ensures
        ({
            let ends = run.op is Get && run.op->return_only_cookies && reply is Err && (
            reply->Err_0 is Timeout || reply->Err_0 is CaptchaFailed);
            &&& ends <==> step is Fail
            &&& ends ==> step->Fail_0@ == "waf-session failed: "@ + reply->Err_0.text()
            &&& !ends ==> run.goes_on(state@, step)
        }),
{
}

/// A page that was got is handed out as it is, under the URL that was asked for, with its own
/// status, or 200 where the browser told none, and with the cookies and the user agent of the
/// session.
pub proof fn law_page_is_handed_out(
    run: FetchRun,
    state: SessionData,
    page: SourceResponse,
    step: FetchStep,
)
    requires
        run.page_answer(state@, Ok(page), step),
    ensures
        step is Respond,
        step->Respond_0.url@ == run.url@,
        page.status is Some ==> step->Respond_0.status == page.status->0,
        page.status is None ==> step->Respond_0.status == 200,
        step->Respond_0.body@ == page.html@,
        tells_of(step->Respond_0, state),
{
    law_equal_views_have_equal_attributes(step->Respond_0.cookies@, state.cookies@);
}

/// A page that could not be got ends the fetch with an error that tells which call failed, and
/// how.
pub proof fn law_missing_page_is_told(
    run: FetchRun,
    state: SessionData,
    e: ChaserError,
    step: FetchStep,
)
    requires
        run.page_answer(state@, Err(e), step),
    ensures
        step is Fail,
        run.op is Get ==> step->Fail_0@ == "source failed: "@ + e.text(),
        run.op is Post ==> step->Fail_0@ == "post failed: "@ + e.text(),
{
}

/// The number that is reported for a page is the status that is handed out with it, whatever
/// number it is, as long as it fits a status.
pub proof fn law_reported_number_is_handed_out(
    run: FetchRun,
    state: SessionData,
    outcome: ClearanceOutcome,
    html: Seq<char>,
    n: u64,
    reply: ChaserResult<SourceResponse>,
    step: FetchStep,
)
    requires
        n <= 65535,
        outcome is Solved || outcome is NotCloudflare,
        page_gives(outcome, html, Some(n), reply),
        run.page_answer(state@, reply, step),
    ensures
        reply is Ok,
        reply->Ok_0.status == Some(n as u16),
        step is Respond,
        step->Respond_0.status == n,
        step->Respond_0.body@ == html,
{
}

} // verus!
