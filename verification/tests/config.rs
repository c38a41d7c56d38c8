use chaser_resolverr::cf::config::{ChaserConfig, ChaserEnv};
use chaser_resolverr::chaser::{Stage, WafSummary};
use chaser_resolverr::config::{
    load_from_env, malformed_numbers, parse_port_with_default, parse_seconds_with_default, ConfigError, ProxyConfig,
    ServerEnv, SessionConfig,
};
use chaser_resolverr::error::ChaserError;
use chaser_resolverr::models::{ContextProxy, Cookie, Profile, WafSession};
use std::path::PathBuf;
use std::time::Duration;

fn strings(list: &[&str]) -> Vec<String> {
    list.iter().map(|s| s.to_string()).collect()
}

#[test]
fn test_default_config() {
    let config = ChaserConfig::default();
    assert_eq!(config.context_limit, 20);
    assert_eq!(config.timeout_ms, 60000);
    assert_eq!(config.profile, Profile::Windows);
    assert!(!config.lazy_init);
    assert!(!config.headless);
    assert!(config.extra_args.is_empty());
}

#[test]
fn test_with_extra_args_replaces() {
    let config =
        ChaserConfig::default().with_extra_args(strings(&["--no-sandbox", "--disable-gpu"]));
    assert_eq!(config.extra_args, vec!["--no-sandbox", "--disable-gpu"]);
    let config2 = config.with_extra_args(strings(&["--foo"]));
    assert_eq!(config2.extra_args, vec!["--foo"]);
}

#[test]
fn test_add_extra_arg_appends() {
    let config = ChaserConfig::default()
        .add_extra_arg("--no-sandbox".to_string())
        .add_extra_arg("--disable-gpu".to_string());
    assert_eq!(config.extra_args, vec!["--no-sandbox", "--disable-gpu"]);
}

#[test]
fn test_builder_pattern() {
    let config = ChaserConfig::default()
        .with_context_limit(10)
        .with_timeout_ms(30000)
        .with_profile(Profile::Linux)
        .with_lazy_init(true)
        .with_headless(true);

    assert_eq!(config.context_limit, 10);
    assert_eq!(config.timeout_ms, 30000);
    assert_eq!(config.profile, Profile::Linux);
    assert!(config.lazy_init);
    assert!(config.headless);
}

#[test]
fn remaining_builders_set_their_fields() {
    let config = ChaserConfig::default()
        .with_timeout(Duration::new(3, 4_999_999))
        .with_chrome_path(PathBuf::from("/usr/bin/chromium"))
        .with_viewport(800, 600)
        .with_virtual_display(true);
    assert_eq!(config.timeout_ms, 3004);
    assert_eq!(config.timeout(), Duration::from_millis(3004));
    assert_eq!(config.chrome_path, Some(PathBuf::from("/usr/bin/chromium")));
    assert_eq!((config.viewport_width, config.viewport_height), (800, 600));
    assert!(config.virtual_display);
}

#[test]
fn configuration_can_be_copied() {
    let config = ChaserConfig::default().add_extra_arg("--x".to_string());
    let copy = config.clone();
    assert_eq!(copy.extra_args, config.extra_args);
    assert_eq!(copy.timeout_ms, 60000);
}

#[test]
fn long_timeout_wraps_around() {
    let config = ChaserConfig::default().with_timeout(Duration::MAX);
    assert_eq!(config.timeout_ms, Duration::MAX.as_millis() as u64);
}

fn no_chaser_env() -> ChaserEnv {
    ChaserEnv {
        context_limit: None,
        timeout: None,
        profile: None,
        lazy_init: None,
        chrome_bin: None,
        headless: None,
        extra_args: None,
        virtual_display: None,
    }
}

#[test]
fn empty_environment_leaves_the_defaults() {
    let config = ChaserConfig::from_env(no_chaser_env());
    assert_eq!(config.context_limit, 20);
    assert_eq!(config.timeout_ms, 60000);
    assert_eq!(config.profile, Profile::Windows);
    assert!(!config.lazy_init && !config.headless && !config.virtual_display);
    assert_eq!(config.chrome_path, None);
    assert_eq!((config.viewport_width, config.viewport_height), (1920, 1080));
    assert!(config.extra_args.is_empty());
}

#[test]
fn environment_sets_each_field() {
    let config = ChaserConfig::from_env(ChaserEnv {
        context_limit: Some("7".to_string()),
        timeout: Some("+1500".to_string()),
        profile: Some("macos".to_string()),
        lazy_init: Some("TRUE".to_string()),
        chrome_bin: Some(PathBuf::from("/opt/chrome")),
        headless: Some("1".to_string()),
        extra_args: Some("  --no-sandbox\t--proxy=x\u{2003}--y ".to_string()),
        virtual_display: Some("yes".to_string()),
    });
    assert_eq!(config.context_limit, 7);
    assert_eq!(config.timeout_ms, 1500);
    assert_eq!(config.profile, Profile::Macos);
    assert!(config.lazy_init);
    assert_eq!(config.chrome_path, Some(PathBuf::from("/opt/chrome")));
    assert!(config.headless);
    assert_eq!(config.extra_args, vec!["--no-sandbox", "--proxy=x", "--y"]);
    assert!(!config.virtual_display);
}

#[test]
fn malformed_environment_falls_back() {
    let config = ChaserConfig::from_env(ChaserEnv {
        context_limit: Some("-3".to_string()),
        timeout: Some("18446744073709551616".to_string()),
        profile: Some("beos".to_string()),
        headless: Some("11".to_string()),
        ..no_chaser_env()
    });
    assert_eq!(config.context_limit, 20);
    assert_eq!(config.timeout_ms, 60000);
    assert_eq!(config.profile, Profile::Windows);
    assert!(!config.headless);
}

#[test]
fn profiles_are_read_by_name() {
    assert_eq!(Profile::parse("windows"), Some(Profile::Windows));
    assert_eq!(Profile::parse("linux"), Some(Profile::Linux));
    assert_eq!(Profile::parse("macos"), Some(Profile::Macos));
    assert_eq!(Profile::parse(""), None);
}

fn no_server_env() -> ServerEnv {
    ServerEnv {
        proxy_host: None,
        proxy_port: None,
        proxy_username: None,
        proxy_password: None,
        data_path: None,
        host: None,
        port: None,
        clearance_ttl_seconds: None,
    }
}

#[test]
fn server_defaults_are_usable_as_they_are() {
    let config = load_from_env(&no_server_env()).unwrap();
    assert!(config.proxy.is_none());
    assert_eq!(config.data_path, "/data");
    assert_eq!(config.host, "0.0.0.0");
    assert_eq!(config.port, 8191);
    assert_eq!(config.session.clearance_ttl_seconds, 1500);
    let (browser, runtime) = config.into_browser_config("handle");
    assert_eq!(browser.chaser, "handle");
    assert_eq!(browser.session.clearance_ttl_seconds, 1500);
    assert_eq!(runtime.bind, "0.0.0.0:8191");
    assert_eq!(runtime.data_path, "/data");
    assert_eq!(SessionConfig::default().clearance_ttl_seconds, 1500);
}

#[test]
fn server_environment_is_read() {
    let config = load_from_env(&ServerEnv {
        proxy_host: Some("proxy".to_string()),
        proxy_port: Some("8080".to_string()),
        proxy_username: Some("me".to_string()),
        proxy_password: Some("secret".to_string()),
        data_path: Some("/srv".to_string()),
        host: Some("127.0.0.1".to_string()),
        port: Some("80".to_string()),
        clearance_ttl_seconds: Some("-5".to_string()),
    })
    .unwrap();
    let proxy = config.proxy.unwrap();
    assert_eq!((proxy.host.as_str(), proxy.port), ("proxy", 8080));
    assert_eq!(proxy.username.as_deref(), Some("me"));
    assert_eq!(proxy.password.as_deref(), Some("secret"));
    assert_eq!(config.data_path, "/srv");
    assert_eq!(config.host, "127.0.0.1");
    assert_eq!(config.port, 80);
    assert_eq!(config.session.clearance_ttl_seconds, -5);
}

#[test]
fn proxy_credentials_count_as_a_pair() {
    let config = load_from_env(&ServerEnv {
        proxy_host: Some("proxy".to_string()),
        proxy_port: Some("1".to_string()),
        proxy_username: Some("me".to_string()),
        proxy_password: Some(String::new()),
        ..no_server_env()
    })
    .unwrap();
    let proxy = config.proxy.unwrap();
    assert_eq!(proxy.username, None);
    assert_eq!(proxy.password, None);
}

#[test]
fn empty_proxy_variables_count_as_unset() {
    let config = load_from_env(&ServerEnv {
        proxy_host: Some(String::new()),
        proxy_port: Some("nonsense".to_string()),
        ..no_server_env()
    })
    .unwrap();
    assert!(config.proxy.is_none());
}

#[test]
fn malformed_proxy_port_is_refused() {
    for port in ["65536", "-1", "80a", "+"] {
        let err = load_from_env(&ServerEnv {
            proxy_host: Some("proxy".to_string()),
            proxy_port: Some(port.to_string()),
            ..no_server_env()
        });
        match err {
            Err(e) => {
                assert_eq!(e, ConfigError::InvalidProxyPort);
                assert_eq!(e.message(), "PROXY_PORT must be an integer in 0..=65535");
            }
            Ok(_) => panic!("{} was taken for a port", port),
        }
    }
}

#[test]
fn malformed_numbers_fall_back() {
    assert_eq!(parse_port_with_default(&Some("65535".to_string()), 1), 65535);
    assert_eq!(parse_port_with_default(&Some("65536".to_string()), 1), 1);
    assert_eq!(parse_port_with_default(&None, 1), 1);
    assert_eq!(
        parse_seconds_with_default(&Some("-9223372036854775808".to_string()), 1),
        i64::MIN
    );
    assert_eq!(parse_seconds_with_default(&Some("9223372036854775808".to_string()), 1), 1);
    assert_eq!(parse_seconds_with_default(&Some(" 5".to_string()), 1), 1);
    assert_eq!(parse_seconds_with_default(&None, 2), 2);
}

#[test]
fn malformed_numbers_are_named() {
    assert!(malformed_numbers(&no_server_env()).is_empty());
    let mut env = no_server_env();
    env.port = Some("70000".to_string());
    assert_eq!(malformed_numbers(&env), vec!["PORT"]);
    env.clearance_ttl_seconds = Some("soon".to_string());
    assert_eq!(malformed_numbers(&env), vec!["PORT", "CLEARANCE_TTL_SECONDS"]);
    env.port = Some("80".to_string());
    assert_eq!(malformed_numbers(&env), vec!["CLEARANCE_TTL_SECONDS"]);
    env.clearance_ttl_seconds = Some("-5".to_string());
    assert!(malformed_numbers(&env).is_empty());
}

#[test]
fn context_proxy_takes_over_the_setting() {
    let plain = ContextProxy::from(&ProxyConfig::new("h".to_string(), 9));
    assert_eq!((plain.host.as_str(), plain.port), ("h", 9));
    assert_eq!(plain.username, None);
    let auth = ContextProxy::from(&ProxyConfig::with_auth(
        "h".to_string(),
        9,
        "u".to_string(),
        "p".to_string(),
    ));
    assert_eq!(auth.username.as_deref(), Some("u"));
    assert_eq!(auth.password.as_deref(), Some("p"));
    let half = ContextProxy::from(&ProxyConfig {
        host: "h".to_string(),
        port: 9,
        username: Some("u".to_string()),
        password: None,
    });
    assert_eq!(half.username, None);
    assert_eq!(half.to_url(), "http://h:9");
}

#[test]
fn summary_takes_over_a_session() {
    let session = WafSession::new(
        vec![Cookie {
            name: "cf_clearance".to_string(),
            value: "v".to_string(),
            domain: None,
            path: Some("/".to_string()),
            expires: Some(5),
            http_only: Some(true),
            secure: None,
            same_site: Some("Lax".to_string()),
        }],
        vec![
            ("accept".to_string(), "x".to_string()),
            ("User-Agent".to_string(), "agent".to_string()),
            ("user-agent".to_string(), "other".to_string()),
        ],
    );
    let summary = WafSummary::from_session(session);
    assert_eq!(summary.cookies.len(), 1);
    assert_eq!(summary.cookies[0].name, "cf_clearance");
    assert_eq!(summary.cookies[0].expires, Some(5));
    assert_eq!(summary.cookies[0].http_only, Some(true));
    assert_eq!(summary.user_agent(), Some("agent"));
    let none = WafSummary { cookies: vec![], headers: vec![] };
    assert_eq!(none.user_agent(), None);
}

#[test]
fn failed_calls_are_described_by_stage() {
    let err = ChaserError::Timeout(90000);
    assert_eq!(Stage::Init.describe(&err), "chaser-cf init failed: Operation timed out after 90000ms");
    assert_eq!(
        Stage::WafSession.describe(&err),
        "waf-session failed: Operation timed out after 90000ms"
    );
    assert_eq!(Stage::Source.describe(&err), "source failed: Operation timed out after 90000ms");
    assert_eq!(Stage::Post.describe(&err), "post failed: Operation timed out after 90000ms");
}
