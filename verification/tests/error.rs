use chaser_resolverr::error::{internal, ChaserError};

#[test]
fn errors_have_their_codes_and_sentences() {
    let m = || "m".to_string();
    let table = vec![
        (
            ChaserError::NotInitialized,
            1,
            "Browser not initialized. Call init() first or use lazy initialization.",
        ),
        (ChaserError::InitFailed(m()), 2, "Failed to initialize browser: m"),
        (ChaserError::ContextFailed(m()), 3, "Failed to create browser context: m"),
        (ChaserError::PageFailed(m()), 4, "Failed to create page: m"),
        (ChaserError::NavigationFailed(m()), 5, "Navigation failed: m"),
        (ChaserError::Timeout(30000), 6, "Operation timed out after 30000ms"),
        (ChaserError::CaptchaFailed(m()), 7, "Failed to solve captcha: m"),
        (ChaserError::TokenExtractionFailed, 8, "Failed to extract token"),
        (ChaserError::CookieExtractionFailed(m()), 9, "Failed to extract cookies: m"),
        (ChaserError::InvalidConfig(m()), 10, "Invalid configuration: m"),
        (ChaserError::InvalidUrl(m()), 11, "Invalid URL: m"),
        (ChaserError::MissingParameter(m()), 12, "Missing required parameter: m"),
        (ChaserError::ProxyError(m()), 13, "Proxy error: m"),
        (ChaserError::Internal(m()), 99, "Internal error: m"),
    ];
    for (err, code, text) in table {
        assert_eq!(err.code(), code);
        assert_eq!(err.message(), text);
    }
}

#[test]
fn url_errors_are_invalid_urls() {
    let cause = url::Url::parse("no url").unwrap_err();
    let err = ChaserError::from(cause);
    assert_eq!(err.message(), "Invalid URL: relative URL without a base");
}

#[test]
fn passed_deadline_is_a_timeout() {
    let runtime = tokio::runtime::Builder::new_current_thread().enable_time().build().unwrap();
    let elapsed = runtime.block_on(async {
        tokio::time::timeout(std::time::Duration::from_millis(1), std::future::pending::<()>())
            .await
            .unwrap_err()
    });
    assert!(matches!(ChaserError::from(elapsed), ChaserError::Timeout(0)));
}

#[test]
fn wrapped_errors_are_internal() {
    let err = ChaserError::from(anyhow::Error::msg("boom"));
    assert_eq!(err.message(), "Internal error: boom");
    assert_eq!(err.code(), 99);
    assert!(matches!(internal("x".to_string()), ChaserError::Internal(m) if m == "x"));
}
