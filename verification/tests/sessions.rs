use chaser_resolverr::chaser::{WafCookie, WafSummary};
use chaser_resolverr::clock::{now_seconds, Timestamp};
use chaser_resolverr::config::{BrowserConfig, SessionConfig};
use chaser_resolverr::cookies::{
    clone_cookies, purge_expired, purge_expired_at, upsert_cookie, StoredCookie,
};
use chaser_resolverr::error::ChaserError;
use chaser_resolverr::fetcher::{
    apply_waf_session, fetch, fetch_post, host_of, needs_refresh,
    needs_refresh_at, FetchOp, FetchRun, FetchStep,
};
use chaser_resolverr::models::SourceResponse;
use chaser_resolverr::session::{
    session_file_name, session_id, DestroyError, Session, SessionData, SessionManager,
    DEFAULT_SESSION_ID,
};

fn cookie(name: &str, value: &str, domain: Option<&str>, expires: Option<i64>) -> StoredCookie {
    StoredCookie {
        name: name.to_string(),
        value: value.to_string(),
        domain: domain.map(String::from),
        path: Some("/".to_string()),
        expires,
        http_only: false,
        secure: true,
        same_site: None,
    }
}

fn values(cookies: &[StoredCookie]) -> Vec<&str> {
    cookies.iter().map(|c| c.value.as_str()).collect()
}

fn data(fetched_at: Option<i64>, host: Option<&str>) -> SessionData {
    SessionData {
        user_agent: "agent".to_string(),
        cookies: vec![],
        clearance_fetched_at: fetched_at,
        clearance_host: host.map(String::from),
    }
}

fn some(s: &str) -> Option<String> {
    Some(s.to_string())
}

#[test]
fn newer_cookie_replaces_its_own_kind() {
    let mut jar = vec![];
    upsert_cookie(&mut jar, cookie("a", "1", Some("x.com"), None));
    upsert_cookie(&mut jar, cookie("b", "2", Some("x.com"), None));
    upsert_cookie(&mut jar, cookie("a", "3", Some("y.com"), None));
    upsert_cookie(&mut jar, cookie("a", "4", None, None));
    assert_eq!(values(&jar), vec!["1", "2", "3", "4"]);
    upsert_cookie(&mut jar, cookie("a", "5", Some("x.com"), None));
    assert_eq!(values(&jar), vec!["5", "2", "3", "4"]);
    upsert_cookie(&mut jar, cookie("a", "5", Some("x.com"), None));
    assert_eq!(values(&jar), vec!["5", "2", "3", "4"]);
    let mut other_path = cookie("a", "6", Some("x.com"), None);
    other_path.path = some("/p");
    upsert_cookie(&mut jar, other_path);
    assert_eq!(jar.len(), 5);
    assert_eq!(values(&clone_cookies(&jar)), values(&jar));
}

#[test]
fn purge_drops_exactly_the_expired() {
    let mut jar = vec![
        cookie("a", "past", None, Some(9)),
        cookie("b", "session", None, None),
        cookie("c", "now", None, Some(10)),
        cookie("d", "future", None, Some(11)),
    ];
    purge_expired_at(&mut jar, 10);
    assert_eq!(values(&jar), vec!["session", "future"]);
    purge_expired_at(&mut jar, 10);
    assert_eq!(values(&jar), vec!["session", "future"]);
    purge_expired_at(&mut jar, 11);
    assert_eq!(values(&jar), vec!["session"]);
    let mut present = vec![
        cookie("a", "old", None, Some(0)),
        cookie("b", "new", None, Some(now_seconds() + 3600)),
    ];
    purge_expired(&mut present);
    assert_eq!(values(&present), vec!["new"]);
}

#[test]
fn host_is_found_in_a_url() {
    assert_eq!(host_of("https://User@Example.COM:8443/a?b"), some("example.com"));
    assert_eq!(host_of("http://[::1]/"), some("[::1]"));
    assert_eq!(host_of("data:text/plain,x"), None);
    assert_eq!(host_of("example.com"), None);
}

#[test]
fn clearance_is_fresh_for_its_window_and_host() {
    let cfg = SessionConfig { clearance_ttl_seconds: 1500 };
    let state = data(Some(1000), Some("x.com"));
    let due = |host, now| needs_refresh_at(&state, &cfg, &host, now);
    assert!(!due(some("x.com"), 1000));
    assert!(!due(some("x.com"), 2499));
    assert!(due(some("x.com"), 2500));
    assert!(due(some("x.com"), 999));
    assert!(due(some("y.com"), 1000));
    assert!(due(None, 1000));
    assert!(needs_refresh_at(&data(None, Some("x.com")), &cfg, &some("x.com"), 0));
    assert!(needs_refresh_at(&data(Some(i64::MIN), None), &cfg, &None, i64::MAX));
    assert!(needs_refresh_at(&data(Some(i64::MAX), None), &cfg, &None, i64::MIN));
    let now = now_seconds();
    assert!(!needs_refresh(&data(Some(now), None), &cfg, &None));
    assert!(needs_refresh(&data(Some(now - 1500), None), &cfg, &None));
}

fn summary() -> WafSummary {
    WafSummary {
        cookies: vec![
            WafCookie {
                name: "cf_clearance".to_string(),
                value: "c".to_string(),
                domain: None,
                path: None,
                expires: Some(99),
                http_only: Some(true),
                secure: None,
                same_site: some("None"),
            },
            WafCookie {
                name: "__cf_bm".to_string(),
                value: "b".to_string(),
                domain: some(".x.com"),
                path: some("/p"),
                expires: None,
                http_only: None,
                secure: Some(true),
                same_site: None,
            },
        ],
        headers: vec![("User-Agent".to_string(), "solved".to_string())],
    }
}

#[test]
fn solved_challenge_is_taken_over() {
    let mut state = data(None, None);
    state.cookies.push(cookie("cf_clearance", "old", Some("x.com"), None));
    apply_waf_session(&mut state, &summary(), &some("x.com"));
    assert_eq!(state.user_agent, "solved");
    assert_eq!(values(&state.cookies), vec!["c", "b"]);
    let first = &state.cookies[0];
    assert_eq!(first.domain.as_deref(), Some("x.com"));
    assert_eq!(first.path.as_deref(), Some("/"));
    assert_eq!(first.expires, Some(99));
    assert!(first.http_only && !first.secure);
    assert_eq!(first.same_site.as_deref(), Some("None"));
    let second = &state.cookies[1];
    assert_eq!(second.domain.as_deref(), Some(".x.com"));
    assert_eq!(second.path.as_deref(), Some("/p"));
    assert!(!second.http_only && second.secure);
    let mut silent = data(None, None);
    apply_waf_session(&mut silent, &WafSummary { cookies: vec![], headers: vec![] }, &None);
    assert_eq!(silent.user_agent, "agent");
}

#[test]
fn cookie_without_an_expiry_outlives_a_save() {
    let mut state = data(None, None);
    let mut left = summary();
    left.cookies[0].expires = Some(-1);
    apply_waf_session(&mut state, &left, &some("x.com"));
    assert_eq!(state.cookies[0].expires, None);
    purge_expired(&mut state.cookies);
    assert_eq!(values(&state.cookies), vec!["c", "b"]);
    for expiry in [Some(0), Some(-5), None] {
        left.cookies[0].expires = expiry;
        apply_waf_session(&mut state, &left, &some("x.com"));
        assert_eq!(state.cookies[0].expires, expiry);
    }
}

#[test]
fn fetch_attempts_once_per_window() {
    let cfg = SessionConfig { clearance_ttl_seconds: 100 };
    let run = FetchRun::new("https://x.com/a", FetchOp::Get { return_only_cookies: false });
    let mut state = data(None, None);
    assert!(matches!(run.begin_at(&state, &cfg, 10), FetchStep::SolveWaf));
    assert!(matches!(run.on_waf_at(&mut state, Ok(summary()), 12), FetchStep::LoadSource));
    assert_eq!(state.clearance_fetched_at, Some(12));
    assert_eq!(state.clearance_host.as_deref(), Some("x.com"));
    let later = FetchRun::new("https://x.com/b", FetchOp::Get { return_only_cookies: false });
    assert!(matches!(later.begin_at(&state, &cfg, 111), FetchStep::LoadSource));
    assert!(matches!(later.begin_at(&state, &cfg, 112), FetchStep::SolveWaf));
    let elsewhere = FetchRun::new("https://y.com/", FetchOp::Get { return_only_cookies: false });
    assert!(matches!(elsewhere.begin_at(&state, &cfg, 13), FetchStep::SolveWaf));
    let post = FetchRun::new("https://x.com/", FetchOp::Post { post_data: "a=b".to_string() });
    assert!(matches!(post.begin_at(&state, &cfg, 13), FetchStep::SubmitPost));
}

#[test]
fn failed_attempt_counts_and_does_not_stop_the_fetch() {
    let cfg = SessionConfig { clearance_ttl_seconds: 100 };
    let run = FetchRun::new("https://x.com/", FetchOp::Get { return_only_cookies: false });
    let mut state = data(None, None);
    let step = run.on_waf_at(&mut state, Err(ChaserError::Timeout(90_000)), 5);
    assert!(matches!(step, FetchStep::LoadSource));
    assert_eq!(state.user_agent, "agent");
    assert!(state.cookies.is_empty());
    assert!(matches!(run.begin_at(&state, &cfg, 6), FetchStep::LoadSource));
    let mut now = data(None, None);
    let before = now_seconds();
    run.on_waf(&mut now, Err(ChaserError::Timeout(1)));
    assert!(now.clearance_fetched_at.unwrap() >= before);
}

#[test]
fn cookies_alone_are_answered_without_a_page() {
    let cfg = SessionConfig { clearance_ttl_seconds: 100 };
    let run = FetchRun::new("https://x.com/", FetchOp::Get { return_only_cookies: true });
    let mut state = data(None, None);
    match run.on_waf_at(&mut state, Ok(summary()), 5) {
        FetchStep::Respond(r) => {
            assert_eq!(r.url, "https://x.com/");
            assert_eq!(r.status, 200);
            assert_eq!(r.body, "");
            assert_eq!(values(&r.cookies), vec!["c", "b"]);
            assert_eq!(r.user_agent, "solved");
        }
        _ => panic!("no answer"),
    }
    assert!(matches!(run.begin_at(&state, &cfg, 6), FetchStep::Respond(_)));
    for unsolved in [
        ChaserError::Timeout(90_000),
        ChaserError::CaptchaFailed("blocked".to_string()),
    ] {
        let message = format!("waf-session failed: {}", unsolved.message());
        let failed = run.on_waf_at(&mut state, Err(unsolved), 7);
        assert!(matches!(failed, FetchStep::Fail(m) if m == message));
        assert_eq!(state.clearance_fetched_at, Some(7));
        assert_eq!(state.cookies.len(), 2);
    }
    let other = run.on_waf_at(&mut state, Err(ChaserError::NotInitialized), 8);
    assert!(matches!(other, FetchStep::Respond(r) if r.body.is_empty() && r.cookies.len() == 2));
    assert_eq!(state.clearance_fetched_at, Some(8));
}

#[test]
fn page_ends_the_fetch() {
    let state = data(Some(1), Some("x.com"));
    let get = FetchRun::new("https://x.com/", FetchOp::Get { return_only_cookies: false });
    let post = FetchRun::new("https://x.com/", FetchOp::Post { post_data: String::new() });
    let page = |status| Ok(SourceResponse { html: "<p>".to_string(), status });
    match get.on_page(&state, page(Some(404))) {
        FetchStep::Respond(r) => {
            assert_eq!((r.status, r.body.as_str()), (404, "<p>"));
            assert_eq!(r.user_agent, "agent");
        }
        _ => panic!("no answer"),
    }
    match post.on_page(&state, page(None)) {
        FetchStep::Respond(r) => assert_eq!(r.status, 200),
        _ => panic!("no answer"),
    }
    let failure = || Err(ChaserError::Timeout(30_000));
    match (get.on_page(&state, failure()), post.on_page(&state, failure())) {
        (FetchStep::Fail(a), FetchStep::Fail(b)) => {
            assert_eq!(a, "source failed: Operation timed out after 30000ms");
            assert_eq!(b, "post failed: Operation timed out after 30000ms");
        }
        _ => panic!("a failure was answered"),
    }
}

#[test]
fn fetches_start_now() {
    let cfg = SessionConfig { clearance_ttl_seconds: 1500 };
    let (run, step) = fetch(&cfg, &data(None, None), "https://x.com/", true);
    assert_eq!(run.host.as_deref(), Some("x.com"));
    assert!(matches!(run.op, FetchOp::Get { return_only_cookies: true }));
    assert!(matches!(step, FetchStep::SolveWaf));
    let fresh = data(Some(now_seconds()), Some("x.com"));
    let (run, step) = fetch_post(&cfg, &fresh, "https://x.com/", "a=b");
    assert!(matches!(run.op, FetchOp::Post { post_data } if post_data == "a=b"));
    assert!(matches!(step, FetchStep::SubmitPost));
}

#[test]
fn fresh_session_has_fetched_nothing() {
    assert_eq!(SessionData::fresh("mine".to_string()).user_agent, "mine");
    let fresh = SessionData::default();
    assert!(fresh.user_agent.starts_with("Mozilla/"));
    assert!(fresh.cookies.is_empty());
    assert_eq!(fresh.clearance_fetched_at, None);
    assert_eq!(fresh.clearance_host, None);
}

#[test]
fn ids_are_given_or_fresh() {
    assert_eq!(session_id(Some("mine")), "mine");
    let a = session_id(None);
    let b = session_id(None);
    assert_eq!(a.len(), 36);
    assert_ne!(a, b);
    assert_ne!(a, DEFAULT_SESSION_ID);
    for (i, c) in a.chars().enumerate() {
        match i {
            8 | 13 | 18 | 23 => assert_eq!(c, '-'),
            14 => assert_eq!(c, '4'),
            19 => assert!(matches!(c, '8' | '9' | 'a' | 'b')),
            _ => assert!(matches!(c, '0'..='9' | 'a'..='f')),
        }
    }
    assert!(!session_file_name(&a).contains('/'));
    assert_eq!(session_file_name("default"), "session_default.json");
    assert_ne!(session_file_name(&a), session_file_name(&b));
}

fn session(ttl: Option<u32>, found: Option<SessionData>) -> Session<u8> {
    let config = BrowserConfig {
        proxy: None,
        chaser: 7,
        session: SessionConfig { clearance_ttl_seconds: 1500 },
    };
    Session::new(config, ttl, "s1".to_string(), found)
}

#[test]
fn session_takes_over_what_was_found() {
    let kept = session(Some(3), Some(data(Some(4), Some("x.com"))));
    assert_eq!(kept.id, "s1");
    assert_eq!(kept.file_name, "session_s1.json");
    assert_eq!(kept.data.clearance_fetched_at, Some(4));
    assert_eq!(kept.ttl_minutes, Some(3));
    assert_eq!(kept.chaser, 7);
    assert_eq!(kept.session_cfg.clearance_ttl_seconds, 1500);
    let then = Timestamp { secs: 77, nanos: 5 };
    let config = BrowserConfig {
        proxy: None,
        chaser: 8,
        session: SessionConfig { clearance_ttl_seconds: 1 },
    };
    let dated = Session::new_at(config, None, "s2".to_string(), None, then);
    assert_eq!(dated.last_used, then);
    assert_eq!((dated.id.as_str(), dated.chaser), ("s2", 8));
    let mut fresh = session(None, None);
    assert_eq!(fresh.data.clearance_fetched_at, None);
    assert_eq!(fresh.reload(Ok(None)), Ok(()));
    assert_eq!(fresh.data.clearance_fetched_at, None);
    assert_eq!(fresh.reload(Ok(Some(data(Some(8), None)))), Ok(()));
    assert_eq!(fresh.data.clearance_fetched_at, Some(8));
    assert_eq!(fresh.reload(Err("garbled".to_string())), Err("garbled".to_string()));
    assert_eq!(fresh.data.clearance_fetched_at, Some(8));
    assert!(fresh.last_used.secs > 0);
}

#[test]
fn idle_time_counts_from_the_last_use() {
    let mut s = session(Some(2), None);
    s.touch_at(Timestamp { secs: 1000, nanos: 0 });
    assert!(!s.is_expired_at(&Timestamp { secs: 1120, nanos: 0 }));
    assert!(s.is_expired_at(&Timestamp { secs: 1120, nanos: 1 }));
    assert!(s.is_expired_at(&Timestamp { secs: 9999, nanos: 0 }));
    assert!(s.is_expired());
    s.touch();
    assert!(!s.is_expired());
    let mut forever = session(None, None);
    forever.touch_at(Timestamp { secs: 0, nanos: 0 });
    assert!(!forever.is_expired());
}

#[test]
fn saving_drops_expired_cookies() {
    let mut s = session(None, Some(data(Some(4), None)));
    s.data.cookies.push(cookie("a", "1", None, Some(10)));
    s.data.cookies.push(cookie("b", "2", None, None));
    s.save_at(9);
    assert_eq!(s.data.cookies.len(), 2);
    s.save();
    assert_eq!(values(&s.data.cookies), vec!["2"]);
    assert_eq!(s.data.clearance_fetched_at, Some(4));
}

#[test]
fn session_starts_its_fetches() {
    let s = session(None, None);
    let (run, step) = s.fetch("https://x.com/", false);
    assert_eq!(run.url, "https://x.com/");
    assert!(matches!(step, FetchStep::SolveWaf));
    let (run, _) = s.fetch_post("https://x.com/", "k=v");
    assert!(matches!(run.op, FetchOp::Post { post_data } if post_data == "k=v"));
}

#[test]
fn register_remembers_and_forgets() {
    let mut register = SessionManager::new(0);
    assert_eq!(register.get_session("default"), Some(&0));
    assert_eq!(register.resolve_session_id(None), "default");
    assert_eq!(register.resolve_session_id(Some("x")), "x");
    register.create_session("a".to_string(), 1);
    register.create_session("b".to_string(), 2);
    register.create_session("a".to_string(), 3);
    assert_eq!(register.get_session("a"), Some(&3));
    assert_eq!(register.get_session("c"), None);
    let mut ids = register.list_sessions();
    ids.sort();
    assert_eq!(ids, vec!["a", "b", "default"]);
    assert_eq!(register.destroy_session("a").unwrap(), 3);
    assert_eq!(register.get_session("a"), None);
    assert_eq!(register.get_session("b"), Some(&2));
    let gone = register.destroy_session("a").unwrap_err();
    assert_eq!(gone.message(), "Session not found: a");
    let kept = register.destroy_session("default").unwrap_err();
    assert!(matches!(kept, DestroyError::DefaultSession));
    assert_eq!(kept.message(), "Cannot destroy the default session");
    assert_eq!(register.get_session("default"), Some(&0));
}

#[test]
fn saved_data_comes_back() {
    let mut writer = session(None, Some(data(Some(4), Some("x.com"))));
    writer.data.cookies.push(cookie("a", "gone", None, Some(10)));
    writer.data.cookies.push(cookie("b", "kept", None, Some(11)));
    writer.data.cookies.push(cookie("c", "session", None, None));
    writer.save_at(10);
    let written = writer.data.clone();
    let mut reader = session(None, Some(data(Some(99), Some("y.com"))));
    assert_eq!(reader.reload(Ok(Some(written))), Ok(()));
    assert_eq!(reader.data.user_agent, "agent");
    assert_eq!(values(&reader.data.cookies), vec!["kept", "session"]);
    assert_eq!(reader.data.clearance_fetched_at, Some(4));
    assert_eq!(reader.data.clearance_host.as_deref(), Some("x.com"));
}

#[test]
fn sweep_takes_only_the_expired() {
    let at = |secs| Timestamp { secs, nanos: 0 };
    let mut register = SessionManager::new(0);
    for (i, id) in ["idle", "busy", "fresh", "forever"].iter().enumerate() {
        register.create_session(id.to_string(), i + 1);
    }
    let mut candidates = register.cleanup_candidates();
    candidates.sort();
    assert_eq!(candidates, vec!["busy", "forever", "fresh", "idle"]);
    let mut idle = session(Some(1), None);
    idle.touch_at(at(0));
    let mut fresh = session(Some(1), None);
    fresh.touch_at(at(100));
    let mut forever = session(None, None);
    forever.touch_at(at(0));
    let locked = vec![
        ("idle".to_string(), &idle),
        ("fresh".to_string(), &fresh),
        ("forever".to_string(), &forever),
        ("idle".to_string(), &idle),
        ("gone".to_string(), &idle),
        ("default".to_string(), &idle),
    ];
    assert!(register.cleanup_expired(&locked, &at(60)).is_empty());
    assert_eq!(register.cleanup_expired(&locked, &at(120)), vec![("idle".to_string(), 1)]);
    let mut left = register.list_sessions();
    left.sort();
    assert_eq!(left, vec!["busy", "default", "forever", "fresh"]);
    idle.touch_at(at(120));
    let used = vec![("idle".to_string(), &idle)];
    register.create_session("idle".to_string(), 9);
    assert!(register.cleanup_expired(&used, &at(121)).is_empty());
    let none: Vec<(String, &Session<u8>)> = vec![];
    assert!(register.cleanup_expired(&none, &at(999)).is_empty());
}
