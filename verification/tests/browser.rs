use chaser_resolverr::cf::browser::{
    context_proxy_url, display_lock, display_name, find_free_display, launch_plan,
    needs_navigation, normalize_chrome_flag, xvfb_args, xvfb_failure, BrowserManager,
};
use chaser_resolverr::cf::config::ChaserConfig;
use chaser_resolverr::cf::lifecycle::ChaserCF;
use chaser_resolverr::error::ChaserError;
use chaser_resolverr::models::ContextProxy;

#[test]
fn normalize_strips_double_dash_keys() {
    assert_eq!(normalize_chrome_flag("--no-sandbox"), "no-sandbox");
    assert_eq!(normalize_chrome_flag("--disable-gpu"), "disable-gpu");
}

#[test]
fn normalize_strips_double_dash_keyvalue() {
    assert_eq!(
        normalize_chrome_flag("--disable-blink-features=AutomationControlled"),
        "disable-blink-features=AutomationControlled"
    );
}

#[test]
fn normalize_passes_through_already_clean() {
    assert_eq!(normalize_chrome_flag("no-sandbox"), "no-sandbox");
    assert_eq!(normalize_chrome_flag("key=value"), "key=value");
}

#[test]
fn normalize_handles_single_dash_too() {
    assert_eq!(normalize_chrome_flag("-no-sandbox"), "no-sandbox");
    assert_eq!(normalize_chrome_flag("---no-sandbox"), "no-sandbox");
}

#[test]
fn normalize_agrees_with_trimming() {
    for raw in ["", "-", "----", "-a-b", "--é=ü", " --x", "a--"] {
        assert_eq!(normalize_chrome_flag(raw), raw.trim_start_matches('-'));
        let once = normalize_chrome_flag(raw);
        assert_eq!(normalize_chrome_flag(&once), once);
        assert_eq!(normalize_chrome_flag(&format!("---{}", raw)), once);
        assert!(!once.starts_with('-'));
    }
}

#[test]
fn headed_launch_sets_the_baseline_and_the_extras() {
    let config = ChaserConfig::default().add_extra_arg("--no-sandbox".to_string());
    let plan = launch_plan(&config, true);
    assert_eq!(
        plan.args,
        vec![
            "disable-blink-features=AutomationControlled",
            "disable-infobars",
            "no-sandbox"
        ]
    );
    assert!(!plan.headless);
    assert!(!plan.virtual_display);
    assert!(plan.args.iter().all(|flag| !flag.starts_with('-')));
}

#[test]
fn headless_launch_on_linux_sets_a_window_and_no_webgl() {
    let config = ChaserConfig::default().with_headless(true);
    let plan = launch_plan(&config, true);
    assert_eq!(
        plan.args,
        vec![
            "disable-blink-features=AutomationControlled",
            "disable-infobars",
            "window-size=1920,1080",
            "disable-webgl",
            "disable-webgl2"
        ]
    );
    assert!(plan.headless);
    let elsewhere = launch_plan(&config, false);
    assert_eq!(elsewhere.args.len(), 2);
    assert!(elsewhere.headless);
}

#[test]
fn virtual_display_implies_a_headed_browser() {
    let config = ChaserConfig::default()
        .with_headless(true)
        .with_virtual_display(true);
    let plan = launch_plan(&config, true);
    assert!(!plan.headless);
    assert!(plan.virtual_display);
    assert_eq!(plan.args.len(), 2);
    let elsewhere = launch_plan(&config, false);
    assert!(elsewhere.headless);
    assert!(!elsewhere.virtual_display);
}

#[test]
fn display_is_started_by_its_number() {
    assert_eq!(display_name(99), ":99");
    assert_eq!(
        xvfb_args(104),
        vec![
            ":104",
            "-screen",
            "0",
            "1920x1080x24",
            "-ac",
            "+extension",
            "GLX",
            "+render",
            "-noreset"
        ]
    );
    let err = xvfb_failure("no such file");
    assert_eq!(
        err.message(),
        "Failed to initialize browser: Xvfb: no such file. Is xvfb installed? (apt install xvfb)"
    );
}

#[test]
fn lowest_unlocked_display_is_taken() {
    assert_eq!(find_free_display(&vec![]), Some(99));
    assert_eq!(find_free_display(&vec![99, 101]), Some(100));
    assert_eq!(find_free_display(&vec![101, 99, 100, 7]), Some(102));
    assert_eq!(find_free_display(&(99..150).collect()), Some(150));
    assert_eq!(find_free_display(&(99..200).collect()), Some(200));
    assert_eq!(find_free_display(&(0..300).collect()), Some(300));
    assert_eq!(display_lock(99), "/tmp/.X99-lock");
}

#[test]
fn blank_page_needs_no_navigation() {
    assert!(!needs_navigation("about:blank"));
    assert!(needs_navigation("https://example.com/"));
}

#[test]
fn context_goes_through_the_proxy() {
    let proxy = ContextProxy::new("10.0.0.1".to_string(), 3128)
        .with_auth("u".to_string(), "p".to_string());
    assert_eq!(context_proxy_url(Some(&proxy)), Some("http://10.0.0.1:3128".to_string()));
    assert_eq!(context_proxy_url(None), None);
    assert_eq!(proxy.credentials(), Some(("u".to_string(), "p".to_string())));
    assert_eq!(ContextProxy::new("h".to_string(), 1).credentials(), None);
}

#[test]
fn permits_never_exceed_the_limit() {
    let mut manager = BrowserManager::new(&ChaserConfig::default().with_context_limit(2));
    assert_eq!(manager.max_contexts(), 2);
    assert!(manager.is_healthy());
    let first = manager.try_acquire_permit();
    let second = manager.try_acquire_permit();
    assert!(first.is_some() && second.is_some());
    assert!(manager.try_acquire_permit().is_none());
    assert_eq!(manager.active_contexts(), 2);
    manager.release(first.unwrap());
    assert_eq!(manager.active_contexts(), 1);
    assert!(manager.try_acquire_permit().is_some());
    manager.shutdown();
    assert!(!manager.is_healthy());
    assert_eq!(manager.active_contexts(), 2);
}

#[test]
fn browser_lives_from_init_to_shutdown() {
    let mut cf: ChaserCF<u8> = ChaserCF::new(ChaserConfig::default().with_timeout_ms(7));
    assert!(cf.starts_at_once());
    assert!(cf.needs_init());
    assert!(!cf.is_ready(true));
    assert!(matches!(cf.browser(), Err(ChaserError::NotInitialized)));
    assert_eq!(cf.init(1), None);
    assert_eq!(cf.init(2), Some(2));
    assert_eq!(*cf.browser().unwrap(), 1);
    assert!(cf.is_ready(true));
    assert!(!cf.is_ready(false));
    assert_eq!(cf.config().timeout_ms, 7);
    assert!(matches!(cf.timed_out(), ChaserError::Timeout(7)));
    assert_eq!(cf.shutdown(), Some(1));
    assert_eq!(cf.shutdown(), None);
    assert!(cf.needs_init());
    assert!(!cf.is_ready(true));
    let lazy: ChaserCF<u8> = ChaserCF::new(ChaserConfig::default().with_lazy_init(true));
    assert!(!lazy.starts_at_once());
}
