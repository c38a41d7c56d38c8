//! Decisions of the challenge solver, between one look at the page and the next.
use crate::error::{ChaserError, ChaserResult};
use crate::models::{ContextProxy, Cookie, RawCookie, SourceResponse, WafSession};
use crate::text::{contains, occurs, replace, replaced, starts_with, str_eq};
use vstd::prelude::*;
use vstd::utf8::encode_utf8;

verus! {

/// How long a page's source is waited for, in milliseconds.
pub const SOURCE_WAIT_MS: u64 = 30_000;

/// How long the clearance of a session is waited for, in milliseconds.
pub const WAF_WAIT_MS: u64 = 90_000;

/// How long a Turnstile token is waited for, in seconds.
pub const TOKEN_WAIT_SECONDS: u64 = 60;

/// How long the page is left alone at first, in milliseconds: the invisible part of a challenge
/// runs in this window, and looking at the page meanwhile disturbs its timing.
pub const PASSIVE_WAIT_MS: u64 = 6_000;

/// The least time between two clicks, in milliseconds.
pub const CLICK_INTERVAL_MS: u64 = 1_200;

/// The pause between two looks at the page, in milliseconds.
pub const POLL_MS: u64 = 400;

/// The pause after the clearance has come, in milliseconds.
pub const SETTLE_MS: u64 = 500;

/// The pause between two looks for a Turnstile token, in milliseconds.
pub const TOKEN_POLL_MS: u64 = 500;

/// What one look at a page shows.
pub struct PageSigns {
    pub title: Option<String>,
    /// Whether a challenge form, a running challenge or a challenge frame stands in the page.
    pub challenge_element: bool,
    /// Whether an error code of the protection stands in the page.
    pub error_code: bool,
}

/// What kind of page it is.
#[derive(Debug, Clone, Copy, PartialEq, Eq, Structural)]
pub enum PageKind {
    /// No page of the protection at all.
    NotCloudflare,
    /// A challenge that can be solved.
    Interactive,
    /// A page that ends the matter: there is nothing to solve on it.
    Blocked,
}

impl PageSigns {
    /// Whether the title holds a text.
    pub open spec fn titled(self, words: Seq<char>) -> bool {
        match self.title {
            Some(t) => occurs(t@, words),
            None => false,
        }
    }

    /// Whether the page is one of the protection: by its title, or by what stands in it.
    pub open spec fn is_challenge(self) -> bool {
        ||| self.titled("Just a moment"@)
        ||| self.titled("Attention Required"@)
        ||| self.titled("Please Wait"@)
        ||| self.challenge_element
        ||| self.error_code
    }

    /// Whether the page offers something to solve.
    pub open spec fn is_solvable(self) -> bool {
        ||| self.titled("Just a moment"@)
        ||| self.titled("Please Wait"@)
        ||| self.challenge_element
    }

    /// The kind of page that the signs tell of.
    pub open spec fn kind(self) -> PageKind {
        if self.is_solvable() {
            PageKind::Interactive
        } else if self.is_challenge() {
            PageKind::Blocked
        } else {
            PageKind::NotCloudflare
        }
    }

    fn title_holds(&self, words: &str) -> (r: bool)
        ensures
            r == self.titled(words@),
    {
        match &self.title {
            Some(t) => contains(t.as_str(), words),
            None => false,
        }
    }

    /// Tells the kind of page.
    pub fn classify(&self) -> (r: PageKind)
        ensures
            r == self.kind(),
            r != PageKind::NotCloudflare <==> self.is_challenge(),
    {
        if self.title_holds("Just a moment") || self.title_holds("Please Wait")
            || self.challenge_element {
            PageKind::Interactive
        } else if self.title_holds("Attention Required") || self.error_code {
            PageKind::Blocked
        } else {
            PageKind::NotCloudflare
        }
    }
}

/// Whether a clearance cookie is among the names.
pub open spec fn has_clearance(names: Seq<String>) -> bool {
    exists|i: int| 0 <= i < names.len() && (#[trigger] names[i])@ == "cf_clearance"@
}

/// Whether a clearance cookie is among the names.
pub fn has_clearance_cookie(names: &Vec<String>) -> (r: bool)
    ensures
        r == has_clearance(names@),
        r <==> exists|i: int|
            0 <= i < names@.len() && (#[trigger] names@[i])@ == "cf_clearance"@,
{
    let mut i: usize = 0;
    while i < names.len()
        invariant
            i <= names@.len(),
            forall|j: int| 0 <= j < i ==> (#[trigger] names@[j])@ != "cf_clearance"@,
        decreases names@.len() - i,
    {
        if str_eq(names[i].as_str(), "cf_clearance") {
            return true;
        }
        i += 1;
    }
    false
}

/// How the wait for a clearance ended.
#[derive(Debug, Clone, Copy, PartialEq, Eq, Structural)]
pub enum ClearanceOutcome {
    /// The clearance cookie is there.
    Solved,
    /// The page is not protected.
    NotCloudflare,
    /// The time ran out on a challenge.
    TimedOut,
    /// The page ends the matter.
    Blocked,
}

/// What to do next in the wait for a clearance.
#[derive(Debug, Clone, Copy, PartialEq, Eq, Structural)]
pub enum ClearanceAction {
    /// Pause that many milliseconds, then stop with the outcome.
    Finish { pause_ms: u64, outcome: ClearanceOutcome },
    /// Look at the page.
    LookAtPage,
    /// Click the challenge, pause, then look at the cookies again.
    Click,
    /// Pause that many milliseconds, then look at the cookies again.
    Pause { pause_ms: u64 },
}

/// The next step once the cookies were looked at, `elapsed_ms` after the start. When the time has
/// run out, the page is looked at once more.
pub open spec fn after_cookies(cleared: bool, elapsed_ms: u64, timeout_ms: u64) -> ClearanceAction {
    if cleared {
        ClearanceAction::Finish { pause_ms: SETTLE_MS, outcome: ClearanceOutcome::Solved }
    } else if elapsed_ms >= timeout_ms || elapsed_ms >= PASSIVE_WAIT_MS {
        ClearanceAction::LookAtPage
    } else {
        ClearanceAction::Pause { pause_ms: POLL_MS }
    }
}

/// Decides on the next step once the cookies were looked at.
pub fn on_cookies(names: &Vec<String>, elapsed_ms: u64, timeout_ms: u64) -> (r: ClearanceAction)
    ensures
        r == after_cookies(has_clearance(names@), elapsed_ms, timeout_ms),
{
    if has_clearance_cookie(names) {
        ClearanceAction::Finish { pause_ms: SETTLE_MS, outcome: ClearanceOutcome::Solved }
    } else if elapsed_ms >= timeout_ms || elapsed_ms >= PASSIVE_WAIT_MS {
        ClearanceAction::LookAtPage
    } else {
        ClearanceAction::Pause { pause_ms: POLL_MS }
    }
}

/// The next step once the page was looked at, that long after the last click, if there was one,
/// on account of the cookies as they were `elapsed_ms` after the start. Only a challenge is waited
/// for, and only as long as the time allows.
pub open spec fn after_page(
    kind: PageKind,
    since_click_ms: Option<u64>,
    elapsed_ms: u64,
    timeout_ms: u64,
) -> ClearanceAction {
    match kind {
        PageKind::NotCloudflare => ClearanceAction::Finish {
            pause_ms: 0,
            outcome: ClearanceOutcome::NotCloudflare,
        },
        PageKind::Blocked => ClearanceAction::Finish {
            pause_ms: 0,
            outcome: ClearanceOutcome::Blocked,
        },
        PageKind::Interactive => if elapsed_ms >= timeout_ms {
            ClearanceAction::Finish { pause_ms: 0, outcome: ClearanceOutcome::TimedOut }
        } else {
            match since_click_ms {
                Some(ms) => if ms >= CLICK_INTERVAL_MS {
                    ClearanceAction::Click
                } else {
                    ClearanceAction::Pause { pause_ms: POLL_MS }
                },
                None => ClearanceAction::Click,
            }
        },
    }
}

/// Decides on the next step once the page was looked at.
pub fn on_page(
    signs: &PageSigns,
    since_click_ms: Option<u64>,
    elapsed_ms: u64,
    timeout_ms: u64,
) -> (r: ClearanceAction)
    ensures
        r == after_page(signs.kind(), since_click_ms, elapsed_ms, timeout_ms),
{
    match signs.classify() {
        PageKind::NotCloudflare => ClearanceAction::Finish {
            pause_ms: 0,
            outcome: ClearanceOutcome::NotCloudflare,
        },
        PageKind::Blocked => ClearanceAction::Finish {
            pause_ms: 0,
            outcome: ClearanceOutcome::Blocked,
        },
        PageKind::Interactive => {
            if elapsed_ms >= timeout_ms {
                return ClearanceAction::Finish {
                    pause_ms: 0,
                    outcome: ClearanceOutcome::TimedOut,
                };
            }
            let due = match since_click_ms {
                Some(ms) => ms >= CLICK_INTERVAL_MS,
                None => true,
            };
            if due {
                ClearanceAction::Click
            } else {
                ClearanceAction::Pause { pause_ms: POLL_MS }
            }
        },
    }
}

impl ClearanceOutcome {
    /// Whether the page behind it may be served: a challenge that was not solved may not.
    pub open spec fn is_cleared(self) -> bool {
        self is Solved || self is NotCloudflare
    }
}

/// The error that stands for an unsolved challenge.
pub open spec fn is_unsolved(err: ChaserError) -> bool {
    err is Timeout || err is CaptchaFailed
}

/// Whether an error stands for an unsolved challenge.
pub fn is_unsolved_challenge(err: &ChaserError) -> (r: bool)
    ensures
        r == is_unsolved(*err),
        r <==> *err is Timeout || *err is CaptchaFailed,
{
    match err {
        ChaserError::Timeout(_) => true,
        ChaserError::CaptchaFailed(_) => true,
        _ => false,
    }
}

/// Lets a page through, or says why it must not be served.
pub fn require_cleared(outcome: ClearanceOutcome, timeout_ms: u64) -> (r: ChaserResult<()>)
    ensures
        r is Ok <==> outcome.is_cleared(),
        r is Ok <==> outcome is Solved || outcome is NotCloudflare,
        outcome is TimedOut ==> r->Err_0 == ChaserError::Timeout(timeout_ms),
        outcome is Blocked ==> r->Err_0 is CaptchaFailed && r->Err_0->CaptchaFailed_0@
            == "blocked by a terminal Cloudflare page"@,
        r is Err ==> is_unsolved(r->Err_0),
{
    match outcome {
        ClearanceOutcome::Solved => Ok(()),
        ClearanceOutcome::NotCloudflare => Ok(()),
        ClearanceOutcome::TimedOut => Err(ChaserError::Timeout(timeout_ms)),
        ClearanceOutcome::Blocked => Err(
            ChaserError::CaptchaFailed("blocked by a terminal Cloudflare page".to_owned()),
        ),
    }
}

/// The HTTP status that a reported number stands for, where it fits one.
pub open spec fn status_of(reported: Option<u64>) -> Option<u16> {
    match reported {
        Some(n) => if n <= 0xffff {
            Some(n as u16)
        } else {
            None
        },
        None => None,
    }
}

/// What a page gives: the page itself with the status that was reported for it, or the error of
/// a challenge that was not solved.
pub open spec fn page_gives(
    outcome: ClearanceOutcome,
    html: Seq<char>,
    reported: Option<u64>,
    r: ChaserResult<SourceResponse>,
) -> bool {
    match r {
        Ok(page) => outcome.is_cleared() && page.html@ == html && page.status == status_of(reported),
        Err(e) => !outcome.is_cleared() && is_unsolved(e),
    }
}

/// Hands out a page, unless its challenge was not solved: such a page is never handed out.
pub fn source_response(
    outcome: ClearanceOutcome,
    timeout_ms: u64,
    html: String,
    reported: Option<u64>,
) -> (r: ChaserResult<SourceResponse>)
    ensures
        page_gives(outcome, html@, reported, r),
        r is Ok <==> outcome is Solved || outcome is NotCloudflare,
        r matches Ok(page) ==> {
            &&& page.html == html
            &&& reported is None ==> page.status is None
            &&& reported is Some && reported->0 <= 65535 ==> page.status == Some(reported->0 as u16)
            &&& reported is Some && reported->0 > 65535 ==> page.status is None
        },
        outcome is TimedOut ==> r->Err_0 == ChaserError::Timeout(timeout_ms),
        outcome is Blocked ==> r->Err_0 is CaptchaFailed && r->Err_0->CaptchaFailed_0@
            == "blocked by a terminal Cloudflare page"@,
{
    match require_cleared(outcome, timeout_ms) {
        Ok(_) => {},
        Err(e) => {
            return Err(e);
        },
    }
    let status = match reported {
        Some(n) => if n <= 0xffff {
            Some(n as u16)
        } else {
            None
        },
        None => None,
    };
    Ok(SourceResponse { html, status })
}

/// A browser cookie, all of its attributes known.
pub open spec fn cookie_of(c: RawCookie) -> Cookie {
    Cookie {
        name: c.name,
        value: c.value,
        domain: Some(c.domain),
        path: Some(c.path),
        expires: Some(c.expires),
        http_only: Some(c.http_only),
        secure: Some(c.secure),
        same_site: c.same_site,
    }
}

/// The session that a browser page leaves behind, unless its challenge was not solved: its
/// cookies, and the browser's user agent, empty where the browser did not tell it.
pub fn waf_session(
    outcome: ClearanceOutcome,
    timeout_ms: u64,
    raw: Vec<RawCookie>,
    user_agent: Option<String>,
) -> (r: ChaserResult<WafSession>)
    ensures
        r is Ok <==> outcome.is_cleared(),
        r is Ok <==> outcome is Solved || outcome is NotCloudflare,
        r is Err ==> is_unsolved(r->Err_0),
        outcome is TimedOut ==> r->Err_0 == ChaserError::Timeout(timeout_ms),
        outcome is Blocked ==> r->Err_0 is CaptchaFailed && r->Err_0->CaptchaFailed_0@
            == "blocked by a terminal Cloudflare page"@,
        r matches Ok(s) ==> {
            &&& s.cookies@ == raw@.map_values(|c: RawCookie| cookie_of(c))
            &&& s.cookies@.len() == raw@.len()
            &&& forall|i: int|
                0 <= i < raw@.len() ==> {
                    &&& (#[trigger] s.cookies@[i]).name == raw@[i].name
                    &&& s.cookies@[i].value == raw@[i].value
                    &&& s.cookies@[i].domain == Some(raw@[i].domain)
                    &&& s.cookies@[i].path == Some(raw@[i].path)
                    &&& s.cookies@[i].expires == Some(raw@[i].expires)
                    &&& s.cookies@[i].http_only == Some(raw@[i].http_only)
                    &&& s.cookies@[i].secure == Some(raw@[i].secure)
                    &&& s.cookies@[i].same_site == raw@[i].same_site
                }
            &&& s.headers@.len() == 1
            &&& s.headers@[0].0@ == "user-agent"@
            &&& s.headers@[0].1@ == (match user_agent {
                Some(ua) => ua@,
                None => Seq::empty(),
            })
        },
{
    match require_cleared(outcome, timeout_ms) {
        Ok(_) => {},
        Err(e) => {
            return Err(e);
        },
    }
    let mut cookies: Vec<Cookie> = Vec::new();
    let ghost all = raw@;
    for c in it: raw
        invariant
            it.seq() == all,
            cookies@ == all.take(it.index() as int).map_values(|c: RawCookie| cookie_of(c)),
    {
        let ghost before = c;
        cookies.push(
            Cookie {
                name: c.name,
                value: c.value,
                domain: Some(c.domain),
                path: Some(c.path),
                expires: Some(c.expires),
                http_only: Some(c.http_only),
                secure: Some(c.secure),
                same_site: c.same_site,
            },
        );
        assert(all.take(it.index() + 1) =~= all.take(it.index() as int).push(before));
        assert(cookies@ =~= all.take(it.index() + 1).map_values(|c: RawCookie| cookie_of(c)));
    }
    assert(all.take(all.len() as int) =~= all);
    let ua = match user_agent {
        Some(ua) => ua,
        None => String::new(),
    };
    let mut headers: Vec<(String, String)> = Vec::new();
    headers.push(("user-agent".to_owned(), ua));
    Ok(WafSession::new(cookies, headers))
}

/// The credentials to hand to a page before it goes through a proxy.
pub fn proxy_credentials(proxy: Option<&ContextProxy>) -> (r: Option<(String, String)>)
    ensures
        match (proxy, r) {
            (Some(p), Some(c)) => p.username == Some(c.0) && p.password == Some(c.1),
            (Some(p), None) => p.username is None || p.password is None,
            (None, r) => r is None,
        },
{
    match proxy {
        Some(p) => p.credentials(),
        None => None,
    }
}

/// The stand-in page for a Turnstile widget of that site key.
pub fn turnstile_page(template: &str, site_key: &str) -> (r: String)
    ensures
        r@ == replaced(template@, "<site-key>"@, site_key@),
{
    proof {
        reveal_strlit("<site-key>");
    }
    replace(template, "<site-key>", site_key)
}

/// What to do with a request that the browser holds back.
#[derive(Debug, Clone, Copy, PartialEq, Eq, Structural)]
pub enum Interception {
    /// Answer it with the stand-in page.
    Fulfill,
    /// Let it go on.
    Continue,
}

/// Answers the document requests for the target, and what lies below it, with the stand-in
/// page; lets every other request go on.
pub fn intercept(request_url: &str, target: &str, is_document: bool) -> (r: Interception)
    ensures
        r is Fulfill <==> is_document && target@.len() <= request_url@.len() && forall|i: int|
            0 <= i < target@.len() ==> #[trigger] request_url@[i] == target@[i],
        r == (if target@.is_prefix_of(request_url@) && is_document {
            Interception::Fulfill
        } else {
            Interception::Continue
        }),
{
    assert(target@.is_prefix_of(request_url@) <==> target@.len() <= request_url@.len() && forall|
        i: int,
    |
        0 <= i < target@.len() ==> #[trigger] request_url@[i] == target@[i]) by {
        if target@.len() <= request_url@.len() && forall|i: int|
            0 <= i < target@.len() ==> #[trigger] request_url@[i] == target@[i] {
            assert(request_url@.subrange(0, target@.len() as int) =~= target@);
        }
        if target@.is_prefix_of(request_url@) {
            assert forall|i: int| 0 <= i < target@.len() implies #[trigger] request_url@[i]
                == target@[i] by {
                assert(request_url@.subrange(0, target@.len() as int)[i] == target@[i]);
            }
        }
    }
    if starts_with(request_url, target) && is_document {
        Interception::Fulfill
    } else {
        Interception::Continue
    }
}

/// Whether the wait for a token is over, and with which error.
pub fn check_token_deadline(elapsed_ns: u128, timeout_seconds: u64) -> (r: ChaserResult<()>)
    ensures
        r is Err <==> elapsed_ns > timeout_seconds * 1_000_000_000,
        r is Err ==> r->Err_0 is CaptchaFailed && r->Err_0->CaptchaFailed_0@
            == "timeout waiting for token"@,
{
    if elapsed_ns > timeout_seconds as u128 * 1_000_000_000 {
        Err(ChaserError::CaptchaFailed("timeout waiting for token".to_owned()))
    } else {
        Ok(())
    }
}

/// Takes what the page gave for a token if it is long enough to be one: more than ten bytes.
pub fn accept_token(given: Option<String>) -> (r: Option<String>)
    ensures
        r == (match given {
            Some(t) => if encode_utf8(t@).len() > 10 {
                given
            } else {
                None
            },
            None => None,
        }),
{
    match given {
        Some(t) => {
            let long = t.as_str().as_bytes().len() > 10;
            if long {
                Some(t)
            } else {
                None
            }
        },
        None => None,
    }
}

/// Once the allowed time has passed, the wait ends with the next look: the cookies end it, or the
/// page does, whatever it shows.
pub proof fn law_wait_ends_at_timeout(
    cleared: bool,
    kind: PageKind,
    since_click_ms: Option<u64>,
    elapsed_ms: u64,
    timeout_ms: u64,
)
    requires
        elapsed_ms >= timeout_ms,
    ensures
        ({
            let a = after_cookies(cleared, elapsed_ms, timeout_ms);
            a is Finish || a is LookAtPage
        }),
        after_page(kind, since_click_ms, elapsed_ms, timeout_ms) is Finish,
{
}

/// The wait runs out of time only on a challenge that could still be solved, and a page without
/// any sign of a challenge is let through even then.
pub proof fn law_only_a_challenge_times_out(
    cleared: bool,
    signs: PageSigns,
    since_click_ms: Option<u64>,
    elapsed_ms: u64,
    timeout_ms: u64,
)
    ensures
        ({
            let a = after_cookies(cleared, elapsed_ms, timeout_ms);
            a is Finish ==> a->outcome is Solved
        }),
        ({
            let a = after_page(signs.kind(), since_click_ms, elapsed_ms, timeout_ms);
            &&& a is Finish && a->outcome is TimedOut ==> signs.is_solvable()
            &&& !signs.is_challenge() ==> a is Finish && a->outcome is NotCloudflare
        }),
{
}

/// The clearance cookie ends the wait as solved, even when the allowed time has passed.
pub proof fn law_clearance_ends_the_wait(elapsed_ms: u64, timeout_ms: u64)
    ensures
        after_cookies(true, elapsed_ms, timeout_ms) == (ClearanceAction::Finish {
            pause_ms: SETTLE_MS,
            outcome: ClearanceOutcome::Solved,
        }),
{
}

/// A page is only looked at once the passive window has passed, or the allowed time where that is
/// shorter.
pub proof fn law_page_is_left_alone_at_first(cleared: bool, elapsed_ms: u64, timeout_ms: u64)
    requires
        elapsed_ms < PASSIVE_WAIT_MS,
        elapsed_ms < timeout_ms,
    ensures
        !(after_cookies(cleared, elapsed_ms, timeout_ms) is LookAtPage),
{
}

/// The wait never reports a challenge page as cleared: it ends as solved only with the
/// clearance cookie present, and as not protected only on a page without any sign of a
/// challenge.
pub proof fn law_cleared_means_no_challenge(
    cleared: bool,
    elapsed_ms: u64,
    timeout_ms: u64,
    signs: PageSigns,
    since_click_ms: Option<u64>,
)
    ensures
        ({
            let a = after_cookies(cleared, elapsed_ms, timeout_ms);
            a is Finish && a->outcome.is_cleared() ==> cleared
        }),
        ({
            let a = after_page(signs.kind(), since_click_ms, elapsed_ms, timeout_ms);
            a is Finish && a->outcome.is_cleared() ==> !signs.is_challenge()
        }),
{
}

/// The number that was reported for a page is its status, whatever number it is, as long as it
/// fits one; a page without a report, or with a number that fits none, has no status.
pub proof fn law_reported_number_is_the_status(
    outcome: ClearanceOutcome,
    html: Seq<char>,
    reported: Option<u64>,
    reply: ChaserResult<SourceResponse>,
    n: u16,
)
    requires
        outcome is Solved || outcome is NotCloudflare,
        page_gives(outcome, html, reported, reply),
    ensures
        reply is Ok,
        reply->Ok_0.html@ == html,
        reported == Some(n as u64) ==> reply->Ok_0.status == Some(n),
        reported is Some && reported->0 > 65535 ==> reply->Ok_0.status is None,
        reported is None ==> reply->Ok_0.status is None,
{
}

/// A page whose challenge timed out, or that ends the matter, is never given.
pub proof fn law_unsolved_page_is_not_given(
    outcome: ClearanceOutcome,
    html: Seq<char>,
    reported: Option<u64>,
    reply: ChaserResult<SourceResponse>,
)
    requires
        outcome is TimedOut || outcome is Blocked,
        page_gives(outcome, html, reported, reply),
    ensures
        reply is Err,
        reply->Err_0 is Timeout || reply->Err_0 is CaptchaFailed,
{
}

/// A cookie of the browser keeps each of its attributes.
pub proof fn law_browser_cookie_keeps_its_attributes(c: RawCookie)
    ensures
        cookie_of(c).name == c.name,
        cookie_of(c).value == c.value,
        cookie_of(c).domain == Some(c.domain),
        cookie_of(c).path == Some(c.path),
        cookie_of(c).expires == Some(c.expires),
        cookie_of(c).http_only == Some(c.http_only),
        cookie_of(c).secure == Some(c.secure),
        cookie_of(c).same_site == c.same_site,
{
}

/// The clearance is there exactly if a cookie is named `cf_clearance`, in whatever place.
pub proof fn law_clearance_goes_by_the_name(names: Seq<String>, i: int)
    requires
        0 <= i < names.len(),
    ensures
        names[i]@ == "cf_clearance"@ ==> has_clearance(names),
        has_clearance(names) ==> exists|k: int|
            0 <= k < names.len() && (#[trigger] names[k])@ == "cf_clearance"@,
        !has_clearance(Seq::empty()),
{
}

/// A page is one of the protection exactly if its title holds one of three texts, wherever it
/// stands there, or a challenge element or an error code stands in the page. There is something to
/// solve on it unless only the title of a block page or the error code tells of it.
pub proof fn law_signs_tell_the_kind(signs: PageSigns)
    ensures
        ({
            let moment = signs.title is Some && occurs(signs.title->0@, "Just a moment"@);
            let wait = signs.title is Some && occurs(signs.title->0@, "Please Wait"@);
            let attention = signs.title is Some && occurs(signs.title->0@, "Attention Required"@);
            &&& signs.kind() is Interactive <==> moment || wait || signs.challenge_element
            &&& signs.kind() is Blocked <==> !(moment || wait || signs.challenge_element) && (
            attention || signs.error_code)
            &&& signs.kind() is NotCloudflare <==> !(moment || wait || signs.challenge_element
                || attention || signs.error_code)
        }),
{
}

/// The cookies decide as they should: the clearance ends the wait after half a second, six seconds
/// or the allowed time, if that is shorter, bring a look at the page, and until then there are
/// pauses.
pub proof fn law_cookies_decide(cleared: bool, elapsed_ms: u64, timeout_ms: u64)
    ensures
        ({
            let a = after_cookies(cleared, elapsed_ms, timeout_ms);
            &&& cleared ==> a == (ClearanceAction::Finish {
                pause_ms: 500,
                outcome: ClearanceOutcome::Solved,
            })
            &&& !cleared && (elapsed_ms >= 6_000 || elapsed_ms >= timeout_ms) ==> a is LookAtPage
            &&& !cleared && elapsed_ms < 6_000 && elapsed_ms < timeout_ms ==> a == (
            ClearanceAction::Pause { pause_ms: 400 })
        }),
{
}

/// The page decides as it should: a challenge is clicked at once and then not more often than
/// every 1.2 seconds, until the time runs out; any other page ends the wait.
pub proof fn law_page_decides(
    kind: PageKind,
    since_click_ms: Option<u64>,
    elapsed_ms: u64,
    timeout_ms: u64,
)
    ensures
        ({
            let a = after_page(kind, since_click_ms, elapsed_ms, timeout_ms);
            let ends = |outcome: ClearanceOutcome|
                a == (ClearanceAction::Finish { pause_ms: 0, outcome });
            &&& kind is NotCloudflare ==> ends(ClearanceOutcome::NotCloudflare)
            &&& kind is Blocked ==> ends(ClearanceOutcome::Blocked)
            &&& kind is Interactive && elapsed_ms >= timeout_ms ==> ends(
                ClearanceOutcome::TimedOut,
            )
            &&& kind is Interactive && elapsed_ms < timeout_ms && (since_click_ms is None
                || since_click_ms->0 >= 1_200) ==> a is Click
            &&& kind is Interactive && elapsed_ms < timeout_ms && since_click_ms is Some
                && since_click_ms->0 < 1_200 ==> a == (ClearanceAction::Pause { pause_ms: 400 })
        }),
{
}

/// What the page gives is a token exactly if it takes more than ten bytes, and it is taken as it
/// is.
pub proof fn law_tokens_are_long_enough(given: String, r: Option<String>)
    requires
        call_ensures(accept_token, (Some(given),), r),
    ensures
        r is Some <==> encode_utf8(given@).len() > 10,
        r is Some ==> r->0 == given,
{
}

/// A token is waited for as long as the time allows, to the last nanosecond, and no longer.
pub proof fn law_token_wait_ends(elapsed_ns: u128, timeout_seconds: u64, r: ChaserResult<()>)
    requires
        call_ensures(check_token_deadline, (elapsed_ns, timeout_seconds), r),
    ensures
        elapsed_ns <= timeout_seconds * 1_000_000_000 ==> r is Ok,
        elapsed_ns > timeout_seconds * 1_000_000_000 ==> r is Err && r->Err_0 is CaptchaFailed
            && r->Err_0->CaptchaFailed_0@ == "timeout waiting for token"@,
{
}

/// The target and everything below it is answered with the stand-in page, but only as a document;
/// no other address is.
pub proof fn law_only_the_target_is_answered(
    url: &str,
    target: &str,
    below: Seq<char>,
    is_document: bool,
    r: Interception,
)
    requires
        call_ensures(intercept, (url, target, is_document), r),
    ensures
        is_document && url@ == target@ + below ==> r is Fulfill,
        r is Fulfill ==> is_document && url@ == target@ + url@.skip(target@.len() as int),
{
    if is_document && url@ == target@ + below {
        assert forall|i: int| 0 <= i < target@.len() implies #[trigger] url@[i] == target@[i] by {
            assert((target@ + below)[i] == target@[i]);
        }
    }
    if r is Fulfill {
        assert(url@ =~= target@ + url@.skip(target@.len() as int));
    }
}

/// A page goes through a proxy with its user name and its password, or with neither.
pub proof fn law_credentials_come_as_a_pair(
    proxy: Option<&ContextProxy>,
    r: Option<(String, String)>,
)
    requires
        call_ensures(proxy_credentials, (proxy,), r),
    ensures
        r is Some <==> proxy is Some && proxy->0.username is Some && proxy->0.password is Some,
        r matches Some(pair) ==> pair.0 == proxy->0.username->0 && pair.1 == proxy->0.password->0,
{
}

} // verus!
