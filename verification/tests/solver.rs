use chaser_resolverr::cf::dom::{find_shadow_challenge_node, DomNode};
use chaser_resolverr::cf::solver::{
    accept_token, check_token_deadline, has_clearance_cookie, intercept, is_unsolved_challenge,
    on_cookies, on_page,
    proxy_credentials, require_cleared, source_response, turnstile_page, waf_session,
    ClearanceAction, ClearanceOutcome, Interception, PageKind, PageSigns,
};
use chaser_resolverr::error::ChaserError;
use chaser_resolverr::models::{ContextProxy, RawCookie};

fn signs(title: Option<&str>, challenge_element: bool, error_code: bool) -> PageSigns {
    PageSigns { title: title.map(String::from), challenge_element, error_code }
}

fn names(list: &[&str]) -> Vec<String> {
    list.iter().map(|s| s.to_string()).collect()
}

#[test]
fn pages_are_told_apart() {
    let kind = |title, element, code| signs(title, element, code).classify();
    assert_eq!(kind(None, false, false), PageKind::NotCloudflare);
    assert_eq!(kind(Some("Example Domain"), false, false), PageKind::NotCloudflare);
    assert_eq!(kind(Some("Just a moment..."), false, false), PageKind::Interactive);
    assert_eq!(kind(Some("Please Wait... | Cloudflare"), false, true), PageKind::Interactive);
    assert_eq!(kind(Some("Shop"), true, false), PageKind::Interactive);
    assert_eq!(kind(Some("Attention Required! | Cloudflare"), false, false), PageKind::Blocked);
    assert_eq!(kind(None, false, true), PageKind::Blocked);
    assert_eq!(kind(Some("Attention Required!"), true, false), PageKind::Interactive);
}

#[test]
fn clearance_cookie_goes_by_its_name() {
    assert!(!has_clearance_cookie(&names(&[])));
    assert!(!has_clearance_cookie(&names(&["cf_clearance2", "__cf_bm"])));
    assert!(has_clearance_cookie(&names(&["a", "cf_clearance"])));
}

#[test]
fn wait_goes_by_cookies_first() {
    let none = names(&[]);
    let cleared = names(&["cf_clearance"]);
    assert_eq!(
        on_cookies(&cleared, 99_999, 30_000),
        ClearanceAction::Finish { pause_ms: 500, outcome: ClearanceOutcome::Solved }
    );
    assert_eq!(on_cookies(&none, 5_999, 30_000), ClearanceAction::Pause { pause_ms: 400 });
    assert_eq!(on_cookies(&none, 6_000, 30_000), ClearanceAction::LookAtPage);
    assert_eq!(on_cookies(&none, 29_999, 30_000), ClearanceAction::LookAtPage);
    assert_eq!(on_cookies(&none, 30_000, 30_000), ClearanceAction::LookAtPage);
    assert_eq!(on_cookies(&none, 1_000, 1_000), ClearanceAction::LookAtPage);
}

#[test]
fn wait_goes_by_the_page_then() {
    let finish = |outcome| ClearanceAction::Finish { pause_ms: 0, outcome };
    let challenge = signs(Some("Just a moment..."), true, false);
    let pause = ClearanceAction::Pause { pause_ms: 400 };
    assert_eq!(on_page(&challenge, None, 6_000, 30_000), ClearanceAction::Click);
    assert_eq!(on_page(&challenge, Some(1_199), 6_000, 30_000), pause);
    assert_eq!(on_page(&challenge, Some(1_200), 29_999, 30_000), ClearanceAction::Click);
    let shop = signs(Some("Shop"), false, false);
    let block = signs(Some("Attention Required!"), false, true);
    for elapsed in [6_000, 30_000, 99_999] {
        let not_protected = finish(ClearanceOutcome::NotCloudflare);
        assert_eq!(on_page(&shop, None, elapsed, 30_000), not_protected);
        assert_eq!(on_page(&block, None, elapsed, 30_000), finish(ClearanceOutcome::Blocked));
    }
    let timed_out = finish(ClearanceOutcome::TimedOut);
    assert_eq!(on_page(&challenge, None, 30_000, 30_000), timed_out);
    assert_eq!(on_page(&challenge, Some(5_000), 30_001, 30_000), timed_out);
}

#[test]
fn unsolved_challenges_are_not_let_through() {
    assert!(require_cleared(ClearanceOutcome::Solved, 1).is_ok());
    assert!(require_cleared(ClearanceOutcome::NotCloudflare, 1).is_ok());
    assert!(matches!(
        require_cleared(ClearanceOutcome::TimedOut, 30_000),
        Err(ChaserError::Timeout(30_000))
    ));
    match require_cleared(ClearanceOutcome::Blocked, 1) {
        Err(e) => assert_eq!(
            e.message(),
            "Failed to solve captcha: blocked by a terminal Cloudflare page"
        ),
        Ok(()) => panic!("a block page was let through"),
    }
}

#[test]
fn page_comes_with_its_real_status() {
    let page = |outcome, reported| source_response(outcome, 30_000, "<html>".to_string(), reported);
    let ok = page(ClearanceOutcome::Solved, Some(404)).unwrap();
    assert_eq!(ok.html, "<html>");
    assert_eq!(ok.status, Some(404));
    assert_eq!(page(ClearanceOutcome::NotCloudflare, None).unwrap().status, None);
    assert_eq!(page(ClearanceOutcome::Solved, Some(65_535)).unwrap().status, Some(65_535));
    assert_eq!(page(ClearanceOutcome::Solved, Some(65_536)).unwrap().status, None);
    assert!(matches!(
        page(ClearanceOutcome::TimedOut, Some(200)),
        Err(ChaserError::Timeout(30_000))
    ));
    assert!(matches!(
        page(ClearanceOutcome::Blocked, Some(403)),
        Err(ChaserError::CaptchaFailed(_))
    ));
}

#[test]
fn session_comes_with_cookies_and_user_agent() {
    let raw = || {
        vec![RawCookie {
            name: "cf_clearance".to_string(),
            value: "v".to_string(),
            domain: ".x.com".to_string(),
            path: "/".to_string(),
            expires: -1,
            http_only: true,
            secure: false,
            same_site: None,
        }]
    };
    let session =
        waf_session(ClearanceOutcome::Solved, 90_000, raw(), Some("agent".to_string())).unwrap();
    assert_eq!(session.headers, vec![("user-agent".to_string(), "agent".to_string())]);
    assert_eq!(session.cookies.len(), 1);
    assert_eq!(session.cookies[0].domain.as_deref(), Some(".x.com"));
    assert_eq!(session.cookies[0].expires, Some(-1));
    assert_eq!(session.cookies[0].secure, Some(false));
    let silent = waf_session(ClearanceOutcome::NotCloudflare, 90_000, vec![], None).unwrap();
    assert_eq!(silent.headers, vec![("user-agent".to_string(), String::new())]);
    assert!(matches!(
        waf_session(ClearanceOutcome::TimedOut, 90_000, raw(), None),
        Err(ChaserError::Timeout(90_000))
    ));
}

#[test]
fn credentials_are_handed_over_as_a_pair() {
    let plain = ContextProxy::new("h".to_string(), 1);
    assert_eq!(proxy_credentials(Some(&plain)), None);
    let auth = ContextProxy::new("h".to_string(), 1).with_auth("u".to_string(), "p".to_string());
    assert_eq!(proxy_credentials(Some(&auth)), Some(("u".to_string(), "p".to_string())));
    assert_eq!(proxy_credentials(None), None);
}

#[test]
fn stand_in_page_carries_the_site_key() {
    assert_eq!(
        turnstile_page("<div data-sitekey=\"<site-key>\"><site-key></div>", "0xAB"),
        "<div data-sitekey=\"0xAB\">0xAB</div>"
    );
}

#[test]
fn only_the_target_document_is_answered() {
    let target = "https://x.com";
    assert_eq!(intercept("https://x.com", target, true), Interception::Fulfill);
    assert_eq!(intercept("https://x.com/", target, true), Interception::Fulfill);
    assert_eq!(intercept("https://x.com/a", target, true), Interception::Fulfill);
    assert_eq!(intercept("https://x.com/a", target, false), Interception::Continue);
    assert_eq!(intercept("https://y.com/", target, true), Interception::Continue);
}

#[test]
fn token_is_waited_for_until_the_deadline() {
    assert!(check_token_deadline(60_000_000_000, 60).is_ok());
    match check_token_deadline(60_000_000_001, 60) {
        Err(e) => assert_eq!(e.message(), "Failed to solve captcha: timeout waiting for token"),
        Ok(()) => panic!("the deadline passed unnoticed"),
    }
    assert_eq!(accept_token(None), None);
    assert_eq!(accept_token(Some("0123456789".to_string())), None);
    assert_eq!(accept_token(Some("01234567890".to_string())).as_deref(), Some("01234567890"));
    assert_eq!(accept_token(Some("éééééé".to_string())).as_deref(), Some("éééééé"));
}

fn node(node_id: i64, attributes: &[&str], children: Vec<DomNode>, shadow: Vec<DomNode>) -> DomNode {
    element(node_id, "DIV", attributes, children, shadow)
}

fn element(
    node_id: i64,
    tag: &str,
    attributes: &[&str],
    children: Vec<DomNode>,
    shadow_roots: Vec<DomNode>,
) -> DomNode {
    DomNode { node_id, tag: tag.to_string(), attributes: names(attributes), children, shadow_roots }
}

fn answer_field() -> DomNode {
    element(90, "INPUT", &["type", "hidden", "name", "cf-turnstile-response"], vec![], vec![])
}

#[test]
fn visible_challenge_element_is_found() {
    let shadow = node(
        20,
        &[],
        vec![
            node(21, &["style", "x; display: none;"], vec![], vec![]),
            node(22, &["class", "c"], vec![], vec![]),
            node(23, &[], vec![], vec![]),
        ],
        vec![],
    );
    let host = node(10, &[], vec![answer_field()], vec![shadow]);
    let tree = node(1, &[], vec![node(2, &[], vec![], vec![]), node(3, &[], vec![host], vec![])], vec![]);
    assert_eq!(find_shadow_challenge_node(&tree), Some(22));
}

#[test]
fn challenge_below_a_shadow_root_is_found() {
    let inner = node(
        30,
        &[],
        vec![answer_field()],
        vec![node(31, &[], vec![node(32, &[], vec![], vec![])], vec![])],
    );
    let tree = node(1, &[], vec![], vec![node(2, &[], vec![inner], vec![])]);
    assert_eq!(find_shadow_challenge_node(&tree), Some(32));
}

#[test]
fn page_without_a_challenge_has_no_target() {
    let unnamed = element(4, "input", &["name"], vec![], vec![]);
    let other = element(5, "input", &["value", "name", "cf-turnstile-response"], vec![], vec![]);
    let tree = node(
        1,
        &[],
        vec![unnamed, other],
        vec![node(2, &[], vec![node(3, &[], vec![], vec![])], vec![])],
    );
    assert_eq!(find_shadow_challenge_node(&tree), None);
    let hidden = node(
        1,
        &[],
        vec![answer_field()],
        vec![node(2, &[], vec![node(3, &["style", "display: none"], vec![], vec![])], vec![])],
    );
    assert_eq!(find_shadow_challenge_node(&hidden), None);
}

#[test]
fn hidden_child_is_skipped_however_it_is_spaced() {
    for style in ["display:none", "display: none", "color: red;\tdisplay :\n none ;"] {
        let shadow = node(
            3,
            &[],
            vec![node(4, &["style", style], vec![], vec![]), node(5, &[], vec![], vec![])],
            vec![],
        );
        let input = element(2, "input", &["name", "cf-turnstile-response"], vec![], vec![]);
        let host = node(1, &[], vec![input], vec![shadow]);
        assert_eq!(find_shadow_challenge_node(&host), Some(5));
        let only = node(3, &[], vec![node(4, &["style", style], vec![], vec![])], vec![]);
        let input = element(2, "input", &["name", "cf-turnstile-response"], vec![], vec![]);
        assert_eq!(find_shadow_challenge_node(&node(1, &[], vec![input], vec![only])), None);
    }
}

#[test]
fn child_of_another_style_is_visible() {
    for style in ["dis play:none", "display:block", "displaynone"] {
        let shadow = node(3, &[], vec![node(4, &["style", style], vec![], vec![])], vec![]);
        assert_eq!(
            find_shadow_challenge_node(&node(1, &[], vec![answer_field()], vec![shadow])),
            Some(4)
        );
    }
}

#[test]
fn only_an_input_element_makes_a_host() {
    let shadow = || node(3, &[], vec![node(4, &[], vec![], vec![])], vec![]);
    let named = |tag| element(2, tag, &["name", "cf-turnstile-response"], vec![], vec![]);
    let target = |tag| find_shadow_challenge_node(&node(1, &[], vec![named(tag)], vec![shadow()]));
    assert_eq!(target("input"), Some(4));
    assert_eq!(target("INPUT"), Some(4));
    assert_eq!(target("meta"), None);
    assert_eq!(target(""), None);
}

#[test]
fn unsolved_challenges_are_told_by_their_errors() {
    assert!(is_unsolved_challenge(&ChaserError::Timeout(1)));
    assert!(is_unsolved_challenge(&ChaserError::CaptchaFailed("x".to_string())));
    assert!(!is_unsolved_challenge(&ChaserError::NotInitialized));
}
