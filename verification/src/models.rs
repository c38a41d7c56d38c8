//! What browser work takes and gives back.
use crate::text::{concat3, decimal, decimal_string, str_eq};
use vstd::prelude::*;

verus! {

/// Stealth profile of the browser.
#[derive(Debug, Clone, Copy, PartialEq, Eq, Structural)]
pub enum Profile {
    Windows,
    Linux,
    Macos,
}

impl Profile {
    /// The profile of that name.
    pub open spec fn named(name: Seq<char>) -> Option<Profile> {
        if name == "windows"@ {
            Some(Profile::Windows)
        } else if name == "linux"@ {
            Some(Profile::Linux)
        } else if name == "macos"@ {
            Some(Profile::Macos)
        } else {
            None
        }
    }

    /// Reads a profile name: `windows`, `linux` or `macos`.
    pub fn parse(name: &str) -> (r: Option<Profile>)
        ensures
            r == Profile::named(name@),
            r == Some(Profile::Windows) <==> name@ == "windows"@,
            r == Some(Profile::Linux) <==> name@ == "linux"@,
            r == Some(Profile::Macos) <==> name@ == "macos"@,
    {
        proof {
            reveal_strlit("windows");
            reveal_strlit("linux");
            reveal_strlit("macos");
            assert("linux"@[0] != "macos"@[0]);
        }
        if str_eq(name, "windows") {
            Some(Profile::Windows)
        } else if str_eq(name, "linux") {
            Some(Profile::Linux)
        } else if str_eq(name, "macos") {
            Some(Profile::Macos)
        } else {
            None
        }
    }
}

/// A browser cookie.
#[derive(Debug, Clone)]
pub struct Cookie {
    pub name: String,
    pub value: String,
    pub domain: Option<String>,
    pub path: Option<String>,
    /// Whole seconds since the Unix epoch, rounded down; -1 for a session cookie.
    pub expires: Option<i64>,
    pub http_only: Option<bool>,
    pub secure: Option<bool>,
    pub same_site: Option<String>,
}

/// A cookie as the browser reports it.
#[derive(Debug)]
pub struct RawCookie {
    pub name: String,
    pub value: String,
    pub domain: String,
    pub path: String,
    /// Whole seconds since the Unix epoch, rounded down; -1 for a session cookie.
    pub expires: i64,
    pub http_only: bool,
    pub secure: bool,
    pub same_site: Option<String>,
}

/// The outcome of loading a page: its HTML and, where the browser tells it, the HTTP status.
#[derive(Debug, Clone)]
pub struct SourceResponse {
    pub html: String,
    pub status: Option<u16>,
}

/// Cookies and headers that a solved challenge leaves behind.
#[derive(Debug, Clone)]
pub struct WafSession {
    pub cookies: Vec<Cookie>,
    pub headers: Vec<(String, String)>,
}

impl WafSession {
    /// A session of these cookies and headers.
    pub fn new(cookies: Vec<Cookie>, headers: Vec<(String, String)>) -> (r: WafSession)
        ensures
            r.cookies == cookies,
            r.headers == headers,
    {
        WafSession { cookies, headers }
    }
}

/// The proxy that a browser context goes through.
#[derive(Debug, Clone)]
pub struct ContextProxy {
    pub host: String,
    pub port: u16,
    pub username: Option<String>,
    pub password: Option<String>,
}

impl ContextProxy {
    /// A proxy without credentials.
    pub fn new(host: String, port: u16) -> (r: ContextProxy)
        ensures
            r.host == host,
            r.port == port,
            r.username is None,
            r.password is None,
    {
        ContextProxy { host, port, username: None, password: None }
    }

    /// The same proxy with credentials.
    pub fn with_auth(self, username: String, password: String) -> (r: ContextProxy)
        ensures
            r.host == self.host,
            r.port == self.port,
            r.username == Some(username),
            r.password == Some(password),
    {
        ContextProxy {
            host: self.host,
            port: self.port,
            username: Some(username),
            password: Some(password),
        }
    }

    /// The address under which the browser reaches the proxy; credentials are not part of it.
    pub fn to_url(&self) -> (r: String)
        ensures
            r@ == "http://"@ + self.host@ + ":"@ + decimal(self.port as nat),
    {
        let mut r = concat3("http://", self.host.as_str(), ":");
        r.append(decimal_string(self.port as u128).as_str());
        r
    }

    /// The credentials to answer the proxy with: a user name and a password, or nothing when
    /// either is missing.
    pub fn credentials(&self) -> (r: Option<(String, String)>)
        ensures
            match r {
                Some(c) => self.username == Some(c.0) && self.password == Some(c.1),
                None => self.username is None || self.password is None,
            },
    {
        match (&self.username, &self.password) {
            (Some(u), Some(p)) => Some((u.clone(), p.clone())),
            _ => None,
        }
    }
}

/// Each profile has one name, and no other text is the name of one.
pub proof fn law_profiles_have_one_name(name: Seq<char>)
    ensures
        Profile::named("windows"@) == Some(Profile::Windows),
        Profile::named("linux"@) == Some(Profile::Linux),
        Profile::named("macos"@) == Some(Profile::Macos),
        Profile::named(name) is Some <==> name == "windows"@ || name == "linux"@ || name
            == "macos"@,
{
    reveal_strlit("windows");
    reveal_strlit("linux");
    reveal_strlit("macos");
    assert("linux"@[0] != "macos"@[0]);
}

} // verus!
