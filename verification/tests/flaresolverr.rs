use chaser_resolverr::cf::solver::{source_response, ClearanceOutcome};
use chaser_resolverr::clock::Timestamp;
use chaser_resolverr::config::{BrowserConfig, SessionConfig};
use chaser_resolverr::cookies::StoredCookie;
use chaser_resolverr::error::ChaserError;
use chaser_resolverr::fetcher::{FetchOp, FetchResponse, FetchRun, FetchStep};
use chaser_resolverr::flaresolverr::{
    begin_fetch, end_fetch, find_session, finish_fetch, finish_fetch_at, handle_create, handle_destroy, handle_list, index,
    needs_reload, ready_session, resolve_max_timeout, start_fetch, v1_handler, warn_ignored_params,
    with_timeout, FetchOrder, FlaresolverrCookie, HealthState, ProxyParam, V1Action, V1Request,
    V1Response, DEFAULT_MAX_TIMEOUT_MS,
};
use chaser_resolverr::session::{Session, SessionData, SessionManager};
use std::time::Duration;

#[test]
fn max_timeout_defaults_when_absent_or_zero() {
    let default = Duration::from_millis(DEFAULT_MAX_TIMEOUT_MS);
    assert_eq!(resolve_max_timeout(None), default);
    assert_eq!(resolve_max_timeout(Some(0)), default);
    assert_eq!(default, Duration::from_millis(60_000));
}

#[test]
fn max_timeout_honors_explicit_value() {
    assert_eq!(resolve_max_timeout(Some(5000)), Duration::from_millis(5000));
}

#[test]
fn cookie_roundtrip_session_cookie() {
    let stored = StoredCookie {
        name: "cf_clearance".into(),
        value: "abc".into(),
        domain: Some("x.com".into()),
        path: Some("/".into()),
        expires: None,
        http_only: true,
        secure: true,
        same_site: Some("Lax".into()),
    };
    let fs = FlaresolverrCookie::from(stored.clone());
    assert_eq!(fs.expires as f64, -1.0);

    let back = StoredCookie::from(fs);
    assert_eq!(back.expires, None);
    assert!(back.http_only);
    assert!(back.secure);
    assert_eq!(back.same_site.as_deref(), Some("Lax"));
}

#[test]
fn cookie_roundtrip_with_expiry() {
    let stored = StoredCookie {
        name: "a".into(),
        value: "b".into(),
        domain: None,
        path: None,
        expires: Some(1_700_000_000),
        http_only: false,
        secure: false,
        same_site: None,
    };
    let fs = FlaresolverrCookie::from(stored);
    assert_eq!(fs.expires as f64, 1_700_000_000.0);
    assert_eq!(StoredCookie::from(fs).expires, Some(1_700_000_000));
}

fn wire(name: &str, value: &str, expires: i64) -> FlaresolverrCookie {
    FlaresolverrCookie {
        name: name.to_string(),
        value: value.to_string(),
        domain: None,
        path: None,
        expires,
        http_only: false,
        secure: None,
        same_site: None,
    }
}

#[test]
fn any_negative_expiry_is_a_session_cookie() {
    assert_eq!(StoredCookie::from(wire("a", "b", -5)).expires, None);
    assert_eq!(StoredCookie::from(wire("a", "b", 0)).expires, Some(0));
    assert!(!StoredCookie::from(wire("a", "b", 0)).secure);
}

fn request(cmd: &str) -> V1Request {
    V1Request {
        cmd: cmd.to_string(),
        url: None,
        post_data: None,
        max_timeout: None,
        proxy: None,
        session: None,
        session_ttl_minutes: None,
        cookies: None,
        return_only_cookies: None,
        headers: None,
        user_agent: None,
        download: None,
        return_raw_html: None,
    }
}

fn refusal(req: &V1Request) -> String {
    match v1_handler(req) {
        V1Action::Refuse(r) => {
            assert_eq!(r.status, "error");
            assert_eq!(r.version, "3.3.21");
            assert!(r.solution.is_none() && r.session.is_none() && r.sessions.is_none());
            r.message
        }
        _ => panic!("not refused"),
    }
}

#[test]
fn unusable_requests_are_refused() {
    assert_eq!(refusal(&request("")), "Error: Parameter 'cmd' is mandatory");
    assert_eq!(refusal(&request("request.put")), "Error: Unknown command: request.put");
    assert_eq!(
        refusal(&request("request.get")),
        "Error: Parameter 'url' is mandatory for request.get"
    );
    assert_eq!(
        refusal(&request("request.post")),
        "Error: Parameter 'url' is mandatory for request.post"
    );
    let mut get = request("request.get");
    get.url = Some("https://x.com/".to_string());
    get.post_data = Some(String::new());
    assert_eq!(refusal(&get), "Error: Cannot use 'postData' with GET request");
    let mut post = request("request.post");
    post.url = Some("https://x.com/".to_string());
    assert_eq!(refusal(&post), "Error: Parameter 'postData' is mandatory for request.post");
    assert_eq!(
        refusal(&request("sessions.destroy")),
        "Error: Parameter 'session' is mandatory for sessions.destroy"
    );
}

#[test]
fn requests_are_told_apart() {
    let mut get = request("request.get");
    get.url = Some("https://x.com/".to_string());
    get.return_only_cookies = Some(true);
    match v1_handler(&get) {
        V1Action::Fetch(order) => {
            assert_eq!(order.url, "https://x.com/");
            assert!(matches!(order.op, FetchOp::Get { return_only_cookies: true }));
        }
        _ => panic!("no fetch"),
    }
    get.return_only_cookies = None;
    match v1_handler(&get) {
        V1Action::Fetch(order) => {
            assert!(matches!(order.op, FetchOp::Get { return_only_cookies: false }))
        }
        _ => panic!("no fetch"),
    }
    let mut post = request("request.post");
    post.url = Some("https://x.com/".to_string());
    post.post_data = Some("a=b".to_string());
    match v1_handler(&post) {
        V1Action::Fetch(order) => {
            assert!(matches!(order.op, FetchOp::Post { post_data } if post_data == "a=b"))
        }
        _ => panic!("no fetch"),
    }
    let mut create = request("sessions.create");
    create.session_ttl_minutes = Some(5);
    assert!(matches!(v1_handler(&create), V1Action::Create { ttl_minutes: Some(5) }));
    assert!(matches!(v1_handler(&request("sessions.list")), V1Action::List));
    let mut destroy = request("sessions.destroy");
    destroy.session = Some("s".to_string());
    assert!(matches!(v1_handler(&destroy), V1Action::Destroy { id } if id == "s"));
}

#[test]
fn ignored_parameters_are_warned_about() {
    assert!(warn_ignored_params(&request("request.get")).is_empty());
    let mut req = request("request.get");
    req.headers = Some(vec![]);
    req.user_agent = Some(String::new());
    req.return_raw_html = Some(false);
    req.download = Some(false);
    req.proxy = Some(ProxyParam { url: None, username: None, password: None });
    req.session_ttl_minutes = Some(1);
    assert_eq!(
        warn_ignored_params(&req),
        vec![
            "Deprecated: 'headers' was removed in FlareSolverr v2",
            "Deprecated: 'userAgent' was removed in FlareSolverr v2",
            "Deprecated: 'returnRawHtml' was removed in FlareSolverr v2",
            "Deprecated: 'download' was removed in FlareSolverr v2",
            "Per-request 'proxy' is ignored; upstream proxy is configured globally via env",
            "'session_ttl_minutes' on request.get/post is ignored; set it on sessions.create",
        ]
    );
}

#[test]
fn answers_are_stamped() {
    let answer = V1Response::ok("fine").stamped(3, 9);
    assert!(answer.is_ok());
    assert_eq!(answer.message, "fine");
    assert_eq!((answer.start_timestamp, answer.end_timestamp), (3, 9));
    assert!(!V1Response::error("bad").is_ok());
    let greeting = index();
    assert_eq!(greeting.msg, "FlareSolverr is ready!");
    assert_eq!(greeting.version, "3.3.21");
    assert_eq!(greeting.user_agent, "That's a secret :)");
}

#[test]
fn health_tells_how_the_fetches_went() {
    let mut health = HealthState::new();
    let (status, report) = health.health(false, 1, 5);
    assert_eq!(status, 503);
    assert_eq!(report.status, "chaser-cf browser not ready");
    assert!(!report.chaser_cf_ready);
    assert_eq!((report.sessions, report.uptime_seconds), (1, 5));
    assert_eq!((report.fetches_total, report.fetches_failed), (0, 0));
    assert!(report.last_success_at.is_none() && report.last_failure_at.is_none());
    let names = health.record_success_at(Timestamp { secs: 0, nanos: 0 });
    assert_eq!(names, vec!["chaser_fetches_total"]);
    let names = health.record_failure_at(Timestamp { secs: 1, nanos: 5_000_000 }, "why".to_string());
    assert_eq!(names, vec!["chaser_fetches_total", "chaser_fetches_failed"]);
    let (status, report) = health.health(true, 2, 6);
    assert_eq!(status, 200);
    assert_eq!(report.status, "ok");
    assert_eq!((report.fetches_total, report.fetches_failed), (2, 1));
    assert_eq!(report.last_success_at.as_deref(), Some("1970-01-01T00:00:00.000Z"));
    assert_eq!(report.last_failure_at.as_deref(), Some("1970-01-01T00:00:01.005Z"));
    assert_eq!(report.last_failure_reason.as_deref(), Some("why"));
    health.record_success();
    health.record_failure("again".to_string());
    assert_eq!((health.fetches_total, health.fetches_failed), (4, 2));
    assert!(health.last_success_at.unwrap().secs > 0);
    health.fetches_total = u64::MAX;
    health.record_success();
    assert_eq!(health.fetches_total, 0);
}

#[test]
fn record_and_counters_agree() {
    let mut health = HealthState::new();
    let mut total: u64 = 0;
    let mut failed: u64 = 0;
    for i in 0..50 {
        let names = if i % 3 == 0 {
            health.record_failure(format!("{}", i))
        } else {
            health.record_success()
        };
        for name in names {
            if name == "chaser_fetches_total" {
                total += 1;
            } else if name == "chaser_fetches_failed" {
                failed += 1;
            }
        }
    }
    assert_eq!((health.fetches_total, health.fetches_failed), (total, failed));
    assert_eq!((total, failed), (50, 17));
}

#[test]
fn requested_session_is_found() {
    let mut sessions = SessionManager::new(1);
    sessions.create_session("a".to_string(), 2);
    let mut req = request("request.get");
    assert!(matches!(find_session(&sessions, &req), Ok((id, 1)) if id == "default"));
    req.session = Some("a".to_string());
    assert!(matches!(find_session(&sessions, &req), Ok((id, 2)) if id == "a"));
    req.session = Some("b".to_string());
    match find_session(&sessions, &req) {
        Err(r) => assert_eq!(r.message, "Error: Session not found: b"),
        Ok(_) => panic!("found what is not there"),
    }
}

fn session(id: &str, ttl: i64) -> Session<()> {
    let config = BrowserConfig {
        proxy: None,
        chaser: (),
        session: SessionConfig { clearance_ttl_seconds: ttl },
    };
    Session::new(config, None, id.to_string(), None)
}

fn found(agent: &str) -> SessionData {
    SessionData {
        user_agent: agent.to_string(),
        cookies: vec![StoredCookie::from(wire("kept", "k", 5)), StoredCookie::from(wire("a", "0", -1))],
        clearance_fetched_at: Some(3),
        clearance_host: None,
    }
}

#[test]
fn session_is_readied_for_a_fetch() {
    let mut named = session("s", 1500);
    named.touch_at(Timestamp { secs: 0, nanos: 0 });
    assert!(needs_reload("s"));
    let brought = vec![wire("a", "1", -1), wire("b", "2", 7), wire("a", "3", -1)];
    ready_session(&mut named, "s", Ok(Some(found("disk"))), Some(brought));
    assert_eq!(named.data.user_agent, "disk");
    assert_eq!(named.data.clearance_fetched_at, Some(3));
    let values: Vec<&str> = named.data.cookies.iter().map(|c| c.value.as_str()).collect();
    assert_eq!(values, vec!["k", "3", "2"]);
    assert!(named.last_used.secs > 0);
    ready_session(&mut named, "s", Err("garbled".to_string()), None);
    assert_eq!(named.data.user_agent, "disk");
    let mut default = session("default", 1500);
    assert!(!needs_reload("default"));
    ready_session(&mut default, "default", Ok(Some(found("disk"))), None);
    assert_ne!(default.data.user_agent, "disk");
    assert!(default.data.cookies.is_empty());
}

#[test]
fn clearance_window_spans_requests() {
    let mut s = session("s", 100);
    let run = FetchRun::new("https://x.com/a", FetchOp::Get { return_only_cookies: false });
    run.on_waf_at(&mut s.data, Err(ChaserError::NotInitialized), 1000);
    s.save_at(1001);
    let kept = SessionData {
        user_agent: s.data.user_agent.clone(),
        cookies: vec![],
        clearance_fetched_at: s.data.clearance_fetched_at,
        clearance_host: s.data.clearance_host.clone(),
    };
    ready_session(&mut s, "s", Ok(Some(kept)), Some(vec![wire("a", "1", 5000)]));
    let later = FetchRun::new("https://x.com/b", FetchOp::Post { post_data: String::new() });
    assert!(matches!(later.begin_at(&s.data, &s.session_cfg, 1099), FetchStep::SubmitPost));
    assert!(matches!(later.begin_at(&s.data, &s.session_cfg, 1100), FetchStep::SolveWaf));
}

#[test]
fn ordered_fetch_is_started() {
    let s = session("s", 1500);
    let order = FetchOrder {
        url: "https://x.com/".to_string(),
        op: FetchOp::Post { post_data: "a=b".to_string() },
    };
    let (run, step) = start_fetch(&s, &order);
    assert_eq!(run.url, "https://x.com/");
    assert!(matches!(run.op, FetchOp::Post { post_data } if post_data == "a=b"));
    assert!(matches!(step, FetchStep::SolveWaf));
    let get = FetchOrder {
        url: "https://x.com/".to_string(),
        op: FetchOp::Get { return_only_cookies: true },
    };
    assert!(matches!(start_fetch(&s, &get).0.op, FetchOp::Get { return_only_cookies: true }));
}

#[test]
fn time_limit_ends_in_an_error() {
    let budget = resolve_max_timeout(Some(1234));
    match with_timeout(&budget, None) {
        Err(m) => assert_eq!(m, "request exceeded maxTimeout of 1234ms"),
        Ok(_) => panic!("no error"),
    }
    assert!(matches!(with_timeout(&budget, Some(Err("x".to_string()))), Err(m) if m == "x"));
    assert!(matches!(with_timeout(&Duration::MAX, None),
        Err(m) if m == "request exceeded maxTimeout of 18446744073709551615999ms"));
}

fn response() -> FetchResponse {
    FetchResponse {
        url: "https://x.com/".to_string(),
        status: 404,
        body: "<p>".to_string(),
        cookies: vec![StoredCookie::from(wire("a", "b", -1))],
        user_agent: "agent".to_string(),
    }
}

#[test]
fn fetch_is_answered_with_its_solution() {
    let mut health = HealthState::new();
    let at = Timestamp { secs: 1, nanos: 0 };
    let (answer, names) =
        finish_fetch_at(&mut health, "s".to_string(), "https://x.com/", Ok(response()), at);
    assert_eq!(answer.status, "ok");
    assert_eq!(answer.message, "Challenge solved!");
    assert_eq!(answer.session.as_deref(), Some("s"));
    let solution = answer.solution.unwrap();
    assert_eq!(solution.url, "https://x.com/");
    assert_eq!(solution.status, 404);
    assert!(solution.headers.is_empty());
    assert_eq!(solution.response, "<p>");
    assert_eq!(solution.cookies.len(), 1);
    assert_eq!(solution.cookies[0].expires, -1);
    assert_eq!(solution.cookies[0].secure, Some(false));
    assert_eq!(solution.user_agent, "agent");
    assert_eq!(names, vec!["chaser_fetches_total"]);
    assert_eq!((health.fetches_total, health.fetches_failed), (1, 0));
    assert_eq!(health.last_success_at, Some(at));
}

#[test]
fn failed_fetch_is_answered_with_an_error() {
    let mut health = HealthState::new();
    let (answer, names) = finish_fetch(
        &mut health,
        "s".to_string(),
        "https://x.com/",
        Err("source failed: nothing".to_string()),
    );
    assert_eq!(answer.status, "error");
    assert_eq!(answer.message, "Error: Challenge failed: source failed: nothing");
    assert!(answer.solution.is_none() && answer.session.is_none());
    assert_eq!(names.len(), 2);
    assert_eq!((health.fetches_total, health.fetches_failed), (1, 1));
    let failure = health.last_failure.unwrap();
    assert_eq!(failure.reason, "https://x.com/: source failed: nothing");
    assert!(failure.at.rfc3339().is_some());
}

#[test]
fn interstitial_is_never_served() {
    let mut health = HealthState::new();
    let state = SessionData::default();
    let run = FetchRun::new("https://x.com/", FetchOp::Get { return_only_cookies: false });
    for outcome in [ClearanceOutcome::TimedOut, ClearanceOutcome::Blocked] {
        let reply = source_response(outcome, 30_000, "Just a moment".to_string(), Some(200));
        let result = match run.on_page(&state, reply) {
            FetchStep::Respond(r) => Ok(r),
            FetchStep::Fail(m) => Err(m),
            _ => panic!("the fetch goes on"),
        };
        let (answer, _) = finish_fetch(&mut health, "default".to_string(), "https://x.com/", result);
        assert_eq!(answer.status, "error");
        assert!(answer.solution.is_none());
    }
}

#[test]
fn fetch_runs_from_begin_to_end() {
    let mut s = session("s", 1500);
    let mut health = HealthState::new();
    let order = FetchOrder {
        url: "https://x.com/".to_string(),
        op: FetchOp::Get { return_only_cookies: false },
    };
    let brought = vec![wire("old", "o", 1), wire("new", "n", -1)];
    let (run, step) = begin_fetch(&mut s, "s", Ok(Some(found("disk"))), Some(brought), &order);
    assert!(matches!(step, FetchStep::SolveWaf));
    let step = run.on_waf(&mut s.data, Err(ChaserError::Timeout(1)));
    assert!(matches!(step, FetchStep::LoadSource));
    let page = source_response(ClearanceOutcome::Solved, 1, "<p>".to_string(), Some(201));
    let response = match run.on_page(&s.data, page) {
        FetchStep::Respond(r) => r,
        _ => panic!("no answer"),
    };
    let budget = resolve_max_timeout(Some(10));
    let (answer, names) =
        end_fetch(&mut s, &mut health, "s".to_string(), &order, &budget, Some(Ok(response)));
    assert_eq!(answer.status, "ok");
    let solution = answer.solution.unwrap();
    assert_eq!((solution.status, solution.response.as_str()), (201, "<p>"));
    assert_eq!(solution.cookies.len(), 4);
    assert_eq!(solution.user_agent, "disk");
    assert_eq!(names, vec!["chaser_fetches_total"]);
    let kept: Vec<&str> = s.data.cookies.iter().map(|c| c.name.as_str()).collect();
    assert_eq!(kept, vec!["a", "new"]);

    let (answer, names) = end_fetch(&mut s, &mut health, "s".to_string(), &order, &budget, None);
    assert_eq!(
        answer.message,
        "Error: Challenge failed: request exceeded maxTimeout of 10ms"
    );
    assert!(answer.solution.is_none());
    assert_eq!(names.len(), 2);
    assert_eq!((health.fetches_total, health.fetches_failed), (2, 1));
}

#[test]
fn unsolved_challenge_gives_no_cookies() {
    let mut health = HealthState::new();
    let mut state = SessionData::default();
    let run = FetchRun::new("https://x.com/", FetchOp::Get { return_only_cookies: true });
    let result = match run.on_waf_at(&mut state, Err(ChaserError::Timeout(90_000)), 5) {
        FetchStep::Fail(m) => Err(m),
        _ => panic!("an unsolved challenge was answered"),
    };
    let (answer, _) = finish_fetch(&mut health, "default".to_string(), "https://x.com/", result);
    assert_eq!(answer.status, "error");
    assert_eq!(
        answer.message,
        "Error: Challenge failed: waf-session failed: Operation timed out after 90000ms"
    );
    assert!(answer.solution.is_none());
    assert_eq!((health.fetches_total, health.fetches_failed), (1, 1));
    assert_eq!(state.clearance_fetched_at, Some(5));
    let (_, report) = health.health(true, 1, 0);
    assert!(report.last_failure_at.is_some() && report.last_failure_reason.is_some());
}

#[test]
fn session_commands_are_answered() {
    let mut sessions = SessionManager::new(0);
    let created = handle_create(&mut sessions, "a".to_string(), 1);
    assert_eq!(created.message, "Session created");
    assert_eq!(created.session.as_deref(), Some("a"));
    let listed = handle_list(&sessions);
    assert_eq!(listed.message, "Found 2 session(s)");
    let mut ids = listed.sessions.unwrap();
    ids.sort();
    assert_eq!(ids, vec!["a", "default"]);
    let (answer, taken) = handle_destroy(&mut sessions, "a".to_string());
    assert_eq!(answer.message, "Session destroyed");
    assert_eq!(answer.session.as_deref(), Some("a"));
    assert_eq!(taken, Some(1));
    let (answer, taken) = handle_destroy(&mut sessions, "a".to_string());
    assert_eq!(answer.message, "Error: Session not found: a");
    assert_eq!(taken, None);
    let (answer, _) = handle_destroy(&mut sessions, "default".to_string());
    assert_eq!(answer.message, "Error: Cannot destroy the default session");
    assert_eq!(handle_list(&sessions).message, "Found 1 session(s)");
}
