//! Between the server's types and those of browser work.
use crate::config::ProxyConfig;
use crate::error::ChaserError;
use crate::models::{ContextProxy, Cookie, WafSession};
use crate::text::{concat, eq_ignore_ascii_case, opt_text, same_ignoring_ascii_case};
use vstd::prelude::*;

verus! {

/// A cookie that a solved challenge left behind.
pub struct WafCookie {
    pub name: String,
    pub value: String,
    pub domain: Option<String>,
    pub path: Option<String>,
    /// Whole seconds since the Unix epoch, rounded down; -1 for a session cookie.
    pub expires: Option<i64>,
    pub http_only: Option<bool>,
    pub secure: Option<bool>,
    pub same_site: Option<String>,
}

/// What a solved challenge left behind: cookies, and headers in the order of their walk.
pub struct WafSummary {
    pub cookies: Vec<WafCookie>,
    pub headers: Vec<(String, String)>,
}

/// The value of the first header of that name, in any ASCII case.
pub open spec fn header_value(headers: Seq<(String, String)>, name: Seq<char>) -> Option<Seq<char>>
    decreases headers.len(),
{
    if headers.len() == 0 {
        None
    } else if same_ignoring_ascii_case(headers[0].0@, name) {
        Some(headers[0].1@)
    } else {
        header_value(headers.skip(1), name)
    }
}

/// The same cookie, as the server holds it.
pub open spec fn waf_cookie(c: Cookie) -> WafCookie {
    WafCookie {
        name: c.name,
        value: c.value,
        domain: c.domain,
        path: c.path,
        expires: c.expires,
        http_only: c.http_only,
        secure: c.secure,
        same_site: c.same_site,
    }
}

impl WafSummary {
    /// Takes over what browser work gave back.
    pub fn from_session(session: WafSession) -> (r: WafSummary)
        ensures
            r.cookies@ == session.cookies@.map_values(|c: Cookie| waf_cookie(c)),
            r.cookies@.len() == session.cookies@.len(),
            forall|i: int|
                0 <= i < session.cookies@.len() ==> {
                    &&& (#[trigger] r.cookies@[i]).name == session.cookies@[i].name
                    &&& r.cookies@[i].value == session.cookies@[i].value
                    &&& r.cookies@[i].domain == session.cookies@[i].domain
                    &&& r.cookies@[i].path == session.cookies@[i].path
                    &&& r.cookies@[i].expires == session.cookies@[i].expires
                    &&& r.cookies@[i].http_only == session.cookies@[i].http_only
                    &&& r.cookies@[i].secure == session.cookies@[i].secure
                    &&& r.cookies@[i].same_site == session.cookies@[i].same_site
                },
            r.headers == session.headers,
    {
        let mut cookies: Vec<WafCookie> = Vec::new();
        let WafSession { cookies: incoming, headers } = session;
        let ghost all = incoming@;
        for c in it: incoming
            invariant
                it.seq() == all,
                cookies@ == all.take(it.index() as int).map_values(|c: Cookie| waf_cookie(c)),
        {
            let ghost before = c;
            cookies.push(
                WafCookie {
                    name: c.name,
                    value: c.value,
                    domain: c.domain,
                    path: c.path,
                    expires: c.expires,
                    http_only: c.http_only,
                    secure: c.secure,
                    same_site: c.same_site,
                },
            );
            assert(all.take(it.index() + 1) =~= all.take(it.index() as int).push(before));
            assert(cookies@ =~= all.take(it.index() + 1).map_values(|c: Cookie| waf_cookie(c)));
        }
        assert(all.take(all.len() as int) =~= all);
        WafSummary { cookies, headers }
    }

    /// The user agent among the headers; the name may be written in any case.
    pub fn user_agent(&self) -> (r: Option<&str>)
        ensures
            (match r {
                Some(s) => Some(s@),
                None => None,
            }) == header_value(self.headers@, "user-agent"@),
            r is None <==> forall|i: int|
                0 <= i < self.headers@.len() ==> !same_ignoring_ascii_case(
                    (#[trigger] self.headers@[i]).0@,
                    "user-agent"@,
                ),
            r matches Some(s) ==> exists|i: int|
                {
                    &&& 0 <= i < self.headers@.len()
                    &&& s@ == (#[trigger] self.headers@[i]).1@
                    &&& same_ignoring_ascii_case(self.headers@[i].0@, "user-agent"@)
                    &&& forall|j: int|
                        0 <= j < i ==> !same_ignoring_ascii_case(
                            (#[trigger] self.headers@[j]).0@,
                            "user-agent"@,
                        )
                },
    {
        let mut i: usize = 0;
        assert(self.headers@.skip(0) =~= self.headers@);
        while i < self.headers.len()
            invariant
                i <= self.headers@.len(),
                header_value(self.headers@.skip(i as int), "user-agent"@) == header_value(
                    self.headers@,
                    "user-agent"@,
                ),
                forall|j: int|
                    0 <= j < i ==> !same_ignoring_ascii_case(
                        (#[trigger] self.headers@[j]).0@,
                        "user-agent"@,
                    ),
            decreases self.headers@.len() - i,
        {
            assert(self.headers@.skip(i as int)[0] == self.headers@[i as int]);
            if eq_ignore_ascii_case(self.headers[i].0.as_str(), "user-agent") {
                return Some(self.headers[i].1.as_str());
            }
            assert(self.headers@.skip(i as int).skip(1) =~= self.headers@.skip(i + 1));
            i += 1;
        }
        None
    }
}

/// Which call into the browser failed.
#[derive(Debug, Clone, Copy, PartialEq, Eq, Structural)]
pub enum Stage {
    Init,
    WafSession,
    Source,
    Post,
}

impl Stage {
    /// What the server says before the browser's own words.
    pub open spec fn prefix(self) -> Seq<char> {
        match self {
            Stage::Init => "chaser-cf init failed: "@,
            Stage::WafSession => "waf-session failed: "@,
            Stage::Source => "source failed: "@,
            Stage::Post => "post failed: "@,
        }
    }

    /// The server's sentence for a failed call.
    pub fn describe(&self, err: &ChaserError) -> (r: String)
        ensures
            r@ == self.prefix() + err.text(),
            *self is Init ==> r@ == "chaser-cf init failed: "@ + err.text(),
            *self is WafSession ==> r@ == "waf-session failed: "@ + err.text(),
            *self is Source ==> r@ == "source failed: "@ + err.text(),
            *self is Post ==> r@ == "post failed: "@ + err.text(),
    {
        let prefix = match self {
            Stage::Init => "chaser-cf init failed: ",
            Stage::WafSession => "waf-session failed: ",
            Stage::Source => "source failed: ",
            Stage::Post => "post failed: ",
        };
        concat(prefix, err.message().as_str())
    }
}

impl From<&ProxyConfig> for ContextProxy {
    /// The same proxy for a browser context. Credentials are taken over only as a pair.
    fn from(p: &ProxyConfig) -> (r: ContextProxy)
        ensures
            r.host@ == p.host@,
            r.port == p.port,
            p.username is Some && p.password is Some ==> {
                &&& opt_text(r.username) == opt_text(p.username)
                &&& opt_text(r.password) == opt_text(p.password)
            },
            !(p.username is Some && p.password is Some) ==> {
                &&& r.username is None
                &&& r.password is None
            },
    {
        let proxy = ContextProxy::new(p.host.clone(), p.port);
        match (&p.username, &p.password) {
            (Some(u), Some(pw)) => proxy.with_auth(u.clone(), pw.clone()),
            _ => proxy,
        }
    }
}

// A text determines no `String` value in ghost code, so `from` states its own result.
impl vstd::std_specs::convert::FromSpecImpl<&ProxyConfig> for ContextProxy {
    open spec fn obeys_from_spec() -> bool {
        false
    }

    open spec fn from_spec(p: &ProxyConfig) -> ContextProxy {
        arbitrary()
    }
}

/// The value of a header is that of the first one of its name, however many others there are
/// before it or after it.
pub proof fn law_first_header_counts(
    before: Seq<(String, String)>,
    header: (String, String),
    after: Seq<(String, String)>,
    name: Seq<char>,
)
    requires
        forall|i: int|
            0 <= i < before.len() ==> !same_ignoring_ascii_case((#[trigger] before[i]).0@, name),
    ensures
        header_value(before, name) is None,
        same_ignoring_ascii_case(header.0@, name) ==> header_value(
            before + seq![header] + after,
            name,
        ) == Some(header.1@),
        !same_ignoring_ascii_case(header.0@, name) ==> header_value(
            before + seq![header] + after,
            name,
        ) == header_value(after, name),
    decreases before.len(),
{
    let all = before + seq![header] + after;
    if before.len() == 0 {
        assert(all.skip(1) =~= after);
    } else {
        let rest = before.skip(1);
        assert(all.skip(1) =~= rest + seq![header] + after);
        assert forall|i: int| 0 <= i < rest.len() implies !same_ignoring_ascii_case(
            (#[trigger] rest[i]).0@,
            name,
        ) by {
            assert(rest[i] == before[i + 1]);
        }
        law_first_header_counts(rest, header, after, name);
    }
}

/// A cookie that a solved challenge left behind keeps each of its attributes.
pub proof fn law_left_cookie_keeps_its_attributes(c: Cookie)
    ensures
        waf_cookie(c).name == c.name,
        waf_cookie(c).value == c.value,
        waf_cookie(c).domain == c.domain,
        waf_cookie(c).path == c.path,
        waf_cookie(c).expires == c.expires,
        waf_cookie(c).http_only == c.http_only,
        waf_cookie(c).secure == c.secure,
        waf_cookie(c).same_site == c.same_site,
{
}

/// What the server says before the browser's own words tells which call failed.
pub proof fn law_stages_say_what_failed()
    ensures
        Stage::Init.prefix() == "chaser-cf init failed: "@,
        Stage::WafSession.prefix() == "waf-session failed: "@,
        Stage::Source.prefix() == "source failed: "@,
        Stage::Post.prefix() == "post failed: "@,
{
}

} // verus!
