use chaser_resolverr::logging::LogContext;
use chaser_resolverr::metrics::{record_fetch, FETCHES_FAILED, FETCHES_TOTAL};

#[test]
fn context_without_parts_has_no_prefix() {
    assert_eq!(LogContext::new().prefix(), "");
    assert_eq!(LogContext::default().info("hello"), "hello");
    assert_eq!(LogContext::new().error(""), "");
}

#[test]
fn parts_stand_in_a_fixed_order() {
    let context = LogContext::new()
        .with_url("https://example.com/")
        .with_session("default")
        .with_operation("get");
    assert_eq!(context.prefix(), "[op=get session=default url=https://example.com/] ");
    assert_eq!(context.info("done"), "[op=get session=default url=https://example.com/] done");
    assert_eq!(LogContext::new().with_session("s").error("bad"), "[session=s] bad");
    let two = LogContext::new().with_operation("post").with_url("u");
    assert_eq!(two.prefix(), "[op=post url=u] ");
}

#[test]
fn long_urls_are_cut() {
    let sixty = "x".repeat(60);
    assert_eq!(LogContext::new().with_url(&sixty).prefix(), format!("[url={}] ", sixty));
    let longer = "x".repeat(61);
    assert_eq!(
        LogContext::new().with_url(&longer).prefix(),
        format!("[url={}] ", "x".repeat(57))
    );
    let wide = "é".repeat(28) + "abcdefg";
    assert_eq!(
        LogContext::new().with_url(&wide).prefix(),
        format!("[url={}a] ", "é".repeat(28))
    );
}

#[test]
fn long_urls_are_cut_between_characters() {
    let url = "a".repeat(56) + "é" + &"b".repeat(5);
    assert_eq!(url.len(), 63);
    let line = LogContext::new().with_url(&url).info("done");
    assert_eq!(line, format!("[url={}] done", "a".repeat(56)));
    let wide = "a".repeat(54) + "\u{10348}" + "bcdef";
    assert_eq!(
        LogContext::new().with_url(&wide).error("bad"),
        format!("[url={}] bad", "a".repeat(54))
    );
}

#[test]
fn fetches_are_counted_by_outcome() {
    assert_eq!(FETCHES_TOTAL, "chaser_fetches_total");
    assert_eq!(FETCHES_FAILED, "chaser_fetches_failed");
    assert_eq!(record_fetch(true), vec!["chaser_fetches_total"]);
    assert_eq!(record_fetch(false), vec!["chaser_fetches_total", "chaser_fetches_failed"]);
}
