//! Configuration of the server, read from environment variables.
use crate::text::{
    concat3, decimal, decimal_string, law_numbers_read_as_written, law_other_texts_are_no_numbers,
    law_other_texts_are_no_signed_numbers, law_signed_numbers_read_as_written, note, noted,
    opt_text, parse_signed, parse_unsigned, signed, unsigned,
};
use vstd::prelude::*;

verus! {

/// An upstream proxy.
#[derive(Debug, Clone, Default)]
pub struct ProxyConfig {
    pub host: String,
    pub port: u16,
    pub username: Option<String>,
    pub password: Option<String>,
}

/// What a proxy setting says.
pub ghost struct ProxyView {
    pub host: Seq<char>,
    pub port: u16,
    pub username: Option<Seq<char>>,
    pub password: Option<Seq<char>>,
}

impl View for ProxyConfig {
    type V = ProxyView;

    open spec fn view(&self) -> ProxyView {
        ProxyView {
            host: self.host@,
            port: self.port,
            username: opt_text(self.username),
            password: opt_text(self.password),
        }
    }
}

impl ProxyConfig {
    /// A proxy without credentials.
    pub fn new(host: String, port: u16) -> (r: ProxyConfig)
        ensures
            r@ == (ProxyView { host: host@, port, username: None, password: None }),
            r == (ProxyConfig { host, port, username: None, password: None }),
    {
        ProxyConfig { host, port, username: None, password: None }
    }

    /// A proxy with credentials.
    pub fn with_auth(host: String, port: u16, username: String, password: String) -> (r: ProxyConfig)
        ensures
            r@ == (ProxyView {
                host: host@,
                port,
                username: Some(username@),
                password: Some(password@),
            }),
            r == (ProxyConfig {
                host,
                port,
                username: Some(username),
                password: Some(password),
            }),
    {
        ProxyConfig { host, port, username: Some(username), password: Some(password) }
    }
}

/// How sessions treat what they cache.
#[derive(Debug, Clone, Copy)]
pub struct SessionConfig {
    /// How long a clearance is taken for fresh, in seconds.
    pub clearance_ttl_seconds: i64,
}

impl Default for SessionConfig {
    /// Twenty-five minutes: a margin below the half hour that a clearance usually lasts.
    fn default() -> (r: SessionConfig)
        ensures
            r.clearance_ttl_seconds == 1500,
    {
        SessionConfig { clearance_ttl_seconds: 1500 }
    }
}

/// Per-session configuration, with the shared browser handle `C`.
#[derive(Clone)]
pub struct BrowserConfig<C> {
    pub proxy: Option<ProxyConfig>,
    pub chaser: C,
    pub session: SessionConfig,
}

/// Server-wide configuration.
pub struct ServerConfig {
    pub proxy: Option<ProxyConfig>,
    pub session: SessionConfig,
    pub data_path: String,
    pub host: String,
    pub port: u16,
}

/// What the program needs once the browser runs.
pub struct RuntimeConfig {
    pub data_path: String,
    pub bind: String,
}

impl ServerConfig {
    /// Parts the configuration into that of the sessions and that of the listener.
    pub fn into_browser_config<C>(self, chaser: C) -> (r: (BrowserConfig<C>, RuntimeConfig))
        ensures
            r.0.proxy == self.proxy,
            r.0.chaser == chaser,
            r.0.session == self.session,
            r.1.data_path == self.data_path,
            r.1.bind@ == self.host@ + ":"@ + decimal(self.port as nat),
    {
        let bind = concat3(self.host.as_str(), ":", decimal_string(self.port as u128).as_str());
        (
            BrowserConfig { proxy: self.proxy, chaser, session: self.session },
            RuntimeConfig { data_path: self.data_path, bind },
        )
    }
}

/// The environment variables that the server reads; `None` for one that is not set.
pub struct ServerEnv {
    pub proxy_host: Option<String>,
    pub proxy_port: Option<String>,
    pub proxy_username: Option<String>,
    pub proxy_password: Option<String>,
    pub data_path: Option<String>,
    pub host: Option<String>,
    pub port: Option<String>,
    pub clearance_ttl_seconds: Option<String>,
}

/// Why a configuration is refused.
#[derive(Debug, Clone, Copy, PartialEq, Eq, Structural)]
pub enum ConfigError {
    /// A proxy host is set and `PROXY_PORT` is no port number.
    InvalidProxyPort,
}

impl ConfigError {
    /// The sentence that tells a person what is wrong.
    pub fn message(&self) -> (r: String)
        ensures
            r@ == "PROXY_PORT must be an integer in 0..=65535"@,
    {
        "PROXY_PORT must be an integer in 0..=65535".to_owned()
    }
}

/// What a variable holds, where it is set and not empty.
pub open spec fn nonempty(var: Option<String>) -> Option<Seq<char>> {
    match var {
        Some(s) => if s@.len() > 0 {
            Some(s@)
        } else {
            None
        },
        None => None,
    }
}

fn filled(var: &Option<String>) -> (r: Option<String>)
    ensures
        opt_text(r) == nonempty(*var),
{
    match var {
        Some(s) => if s.as_str().is_empty() {
            None
        } else {
            Some(s.clone())
        },
        None => None,
    }
}

/// What a variable holds, or a default where it is not set.
fn or_default(var: &Option<String>, default: &str) -> (r: String)
    ensures
        r@ == (match *var {
            Some(s) => s@,
            None => default@,
        }),
{
    match var {
        Some(s) => s.clone(),
        None => default.to_owned(),
    }
}

/// The number that a variable denotes as a port, or the default where it denotes none.
pub open spec fn port_or(var: Option<String>, default: u16) -> u16 {
    match var {
        Some(s) => match unsigned(s@, 65535) {
            Some(n) => n as u16,
            None => default,
        },
        None => default,
    }
}

/// Reads a port, falling back to the default.
pub fn parse_port_with_default(var: &Option<String>, default: u16) -> (r: u16)
    ensures
        r == port_or(*var, default),
{
    match var {
        Some(s) => match parse_unsigned(s.as_str(), 65535) {
            Some(n) => n as u16,
            None => default,
        },
        None => default,
    }
}

/// The number that a variable denotes, or the default where it denotes none.
pub open spec fn seconds_or(var: Option<String>, default: i64) -> i64 {
    match var {
        Some(s) => match signed(s@) {
            Some(n) => n as i64,
            None => default,
        },
        None => default,
    }
}

/// Reads a number of seconds, falling back to the default.
pub fn parse_seconds_with_default(var: &Option<String>, default: i64) -> (r: i64)
    ensures
        r == seconds_or(*var, default),
{
    match var {
        Some(s) => match parse_signed(s.as_str()) {
            Some(n) => n,
            None => default,
        },
        None => default,
    }
}

impl ServerEnv {
    /// Whether both a proxy host and a proxy port are given.
    pub open spec fn wants_proxy(self) -> bool {
        nonempty(self.proxy_host) is Some && nonempty(self.proxy_port) is Some
    }

    /// The port number that the proxy port denotes.
    pub open spec fn proxy_port_number(self) -> Option<nat> {
        unsigned(nonempty(self.proxy_port)->0, 65535)
    }

    /// The proxy that the variables describe. Credentials count only as a pair.
    pub open spec fn proxy_view(self) -> Option<ProxyView> {
        if self.wants_proxy() {
            let paired = nonempty(self.proxy_username) is Some && nonempty(self.proxy_password) is Some;
            Some(
                ProxyView {
                    host: nonempty(self.proxy_host)->0,
                    port: self.proxy_port_number()->0 as u16,
                    username: if paired {
                        nonempty(self.proxy_username)
                    } else {
                        None
                    },
                    password: if paired {
                        nonempty(self.proxy_password)
                    } else {
                        None
                    },
                },
            )
        } else {
            None
        }
    }
}

/// What an optional proxy setting says.
pub open spec fn opt_proxy(p: Option<ProxyConfig>) -> Option<ProxyView> {
    match p {
        Some(c) => Some(c@),
        None => None,
    }
}

/// Reads the server's configuration. It is refused when a proxy is wanted and its port is no
/// port number; every other malformed number falls back to its default.
pub fn load_from_env(env: &ServerEnv) -> (r: Result<ServerConfig, ConfigError>)
    ensures
        r is Err <==> env.wants_proxy() && env.proxy_port_number() is None,
        r matches Ok(c) ==> {
            &&& opt_proxy(c.proxy) == env.proxy_view()
            &&& c.data_path@ == (match env.data_path {
                Some(s) => s@,
                None => "/data"@,
            })
            &&& c.host@ == (match env.host {
                Some(s) => s@,
                None => "0.0.0.0"@,
            })
            &&& c.port == port_or(env.port, 8191)
            &&& c.session.clearance_ttl_seconds == seconds_or(env.clearance_ttl_seconds, 1500)
            &&& env.port is None ==> c.port == 8191
            &&& env.clearance_ttl_seconds is None ==> c.session.clearance_ttl_seconds == 1500
            &&& c.proxy is Some <==> {
                &&& env.proxy_host is Some && env.proxy_host->0@.len() > 0
                &&& env.proxy_port is Some && env.proxy_port->0@.len() > 0
            }
            &&& c.proxy matches Some(p) ==> {
                &&& p.host@ == env.proxy_host->0@
                &&& unsigned(env.proxy_port->0@, 65535) == Some(p.port as nat)
                &&& p.username is Some <==> p.password is Some
                &&& p.username is Some <==> {
                    &&& env.proxy_username is Some && env.proxy_username->0@.len() > 0
                    &&& env.proxy_password is Some && env.proxy_password->0@.len() > 0
                }
                &&& p.username is Some ==> p.username->0@ == env.proxy_username->0@
                    && p.password->0@ == env.proxy_password->0@
            }
        },
{
    let proxy = match (filled(&env.proxy_host), filled(&env.proxy_port)) {
        (Some(host), Some(port_raw)) => {
            let port: u16 = match parse_unsigned(port_raw.as_str(), 65535) {
                Some(n) => n as u16,
                None => {
                    return Err(ConfigError::InvalidProxyPort);
                },
            };
            Some(
                match (filled(&env.proxy_username), filled(&env.proxy_password)) {
                    (Some(u), Some(p)) => ProxyConfig::with_auth(host, port, u, p),
                    _ => ProxyConfig::new(host, port),
                },
            )
        },
        _ => None,
    };
    Ok(
        ServerConfig {
            proxy,
            session: SessionConfig {
                clearance_ttl_seconds: parse_seconds_with_default(&env.clearance_ttl_seconds, 1500),
            },
            data_path: or_default(&env.data_path, "/data"),
            host: or_default(&env.host, "0.0.0.0"),
            port: parse_port_with_default(&env.port, 8191),
        },
    )
}

impl ServerEnv {
    /// Whether the port is set and no port number.
    pub open spec fn port_is_malformed(self) -> bool {
        self.port is Some && unsigned(self.port->0@, 65535) is None
    }

    /// Whether the age of a clearance is set and no number.
    pub open spec fn ttl_is_malformed(self) -> bool {
        self.clearance_ttl_seconds is Some && signed(self.clearance_ttl_seconds->0@) is None
    }
}

/// Names the variables that are set to something that is no number, so that their defaults are
/// used.
pub fn malformed_numbers(env: &ServerEnv) -> (r: Vec<&'static str>)
    ensures
        r@.map_values(|name: &'static str| name@) == noted(
            noted(Seq::empty(), env.port_is_malformed(), "PORT"@),
            env.ttl_is_malformed(),
            "CLEARANCE_TTL_SECONDS"@,
        ),
{
    let port = match &env.port {
        Some(s) => parse_unsigned(s.as_str(), 65535).is_none(),
        None => false,
    };
    let ttl = match &env.clearance_ttl_seconds {
        Some(s) => parse_signed(s.as_str()).is_none(),
        None => false,
    };
    let none: Vec<&'static str> = Vec::new();
    assert(none@.map_values(|name: &'static str| name@) =~= Seq::<Seq<char>>::empty());
    note(note(none, port, "PORT"), ttl, "CLEARANCE_TTL_SECONDS")
}

/// A proxy setting says what its fields say.
pub proof fn law_proxy_view_tells_the_fields(p: ProxyConfig)
    ensures
        p@.host == p.host@,
        p@.port == p.port,
        p.username is Some ==> p@.username == Some(p.username->0@),
        p.username is None ==> p@.username is None,
        p.password is Some ==> p@.password == Some(p.password->0@),
        p.password is None ==> p@.password is None,
        opt_proxy(Some(p)) == Some(p@),
        opt_proxy(None) is None,
{
}

/// A variable that is not set, or empty, holds nothing; any other holds its text.
pub proof fn law_empty_is_not_set(var: String)
    ensures
        nonempty(None) is None,
        var@.len() == 0 ==> nonempty(Some(var)) is None,
        var@.len() > 0 ==> nonempty(Some(var)) == Some(var@),
{
}

/// A port that is written down is taken as written, and nothing else is taken for one: where the
/// variable is not set, holds a larger number or no number, the default holds.
pub proof fn law_ports_are_taken_as_written(var: String, n: nat, i: int, default: u16)
    ensures
        port_or(None, default) == default,
        var@ == decimal(n) && n <= 65535 ==> port_or(Some(var), default) == n,
        var@ == decimal(n) && n > 65535 ==> port_or(Some(var), default) == default,
        0 <= i < var@.len() && !(48 <= (var@[i] as u32) <= 57) && (i > 0 || var@[0] != '+')
            ==> port_or(Some(var), default) == default,
        var@.len() == 0 ==> port_or(Some(var), default) == default,
{
    law_numbers_read_as_written(n, 65535);
    if 0 <= i < var@.len() && !(48 <= (var@[i] as u32) <= 57) && (i > 0 || var@[0] != '+') {
        law_other_texts_are_no_numbers(var@, 65535, i);
    }
}

/// A number of seconds that is written down is taken as written, a negative one too; where the
/// variable is not set, or holds no such number, the default holds.
pub proof fn law_seconds_are_taken_as_written(var: String, n: nat, i: int, default: i64)
    ensures
        seconds_or(None, default) == default,
        var@ == decimal(n) && n < 0x8000_0000_0000_0000 ==> seconds_or(Some(var), default) == n,
        var@ == decimal(n) && n >= 0x8000_0000_0000_0000 ==> seconds_or(Some(var), default)
            == default,
        var@ == "-"@ + decimal(n) && n <= 0x8000_0000_0000_0000 ==> seconds_or(Some(var), default)
            == -n,
        0 <= i < var@.len() && !(48 <= (var@[i] as u32) <= 57) && (i > 0 || (var@[0] != '+'
            && var@[0] != '-')) ==> seconds_or(Some(var), default) == default,
        var@.len() == 0 ==> seconds_or(Some(var), default) == default,
{
    law_signed_numbers_read_as_written(n);
    if 0 <= i < var@.len() && !(48 <= (var@[i] as u32) <= 57) && (i > 0 || (var@[0] != '+'
        && var@[0] != '-')) {
        law_other_texts_are_no_signed_numbers(var@, i);
    }
}

/// A proxy is used exactly if both its host and its port are given, with that host and that port.
/// Credentials are used exactly if both are given.
pub proof fn law_proxy_is_used_as_given(env: ServerEnv, n: nat)
    ensures
        env.wants_proxy() <==> {
            &&& env.proxy_host is Some && env.proxy_host->0@.len() > 0
            &&& env.proxy_port is Some && env.proxy_port->0@.len() > 0
        },
        env.proxy_view() is Some <==> env.wants_proxy(),
        env.wants_proxy() && env.proxy_port->0@ == decimal(n) ==> {
            &&& n <= 65535 ==> env.proxy_port_number() == Some(n)
            &&& n > 65535 ==> env.proxy_port_number() is None
        },
        env.proxy_view() matches Some(p) ==> {
            &&& p.host == env.proxy_host->0@
            &&& env.proxy_port->0@ == decimal(n) && n <= 65535 ==> p.port == n
            &&& env.proxy_username is Some && env.proxy_username->0@.len() > 0
                && env.proxy_password is Some && env.proxy_password->0@.len() > 0 ==> {
                &&& p.username == Some(env.proxy_username->0@)
                &&& p.password == Some(env.proxy_password->0@)
            }
            &&& !(env.proxy_username is Some && env.proxy_username->0@.len() > 0
                && env.proxy_password is Some && env.proxy_password->0@.len() > 0)
                ==> p.username is None && p.password is None
        },
{
    law_numbers_read_as_written(n, 65535);
}

/// A variable that is not set is not malformed, nor is one that holds a number in range; one out
/// of range is.
pub proof fn law_numbers_are_not_malformed(env: ServerEnv, n: nat)
    ensures
        env.port is None ==> !env.port_is_malformed(),
        env.port is Some && env.port->0@ == decimal(n) ==> (env.port_is_malformed() <==> n > 65535),
        env.clearance_ttl_seconds is None ==> !env.ttl_is_malformed(),
        env.clearance_ttl_seconds is Some && env.clearance_ttl_seconds->0@ == decimal(n) ==> (
        env.ttl_is_malformed() <==> n >= 0x8000_0000_0000_0000),
{
    law_numbers_read_as_written(n, 65535);
    law_signed_numbers_read_as_written(n);
}

} // verus!
