//! The errors of browser work.
use crate::text::{concat, concat3, decimal, decimal_string};
use vstd::prelude::*;

verus! {

/// Result of a browser operation.
pub type ChaserResult<T> = Result<T, ChaserError>;

/// What can go wrong in browser work.
#[derive(Debug)]
pub enum ChaserError {
    /// Browser not initialized.
    NotInitialized,
    /// Browser initialization failed.
    InitFailed(String),
    /// Browser context creation failed.
    ContextFailed(String),
    /// Page creation failed.
    PageFailed(String),
    /// Navigation failed.
    NavigationFailed(String),
    /// Operation timed out, after that many milliseconds.
    Timeout(u64),
    /// Captcha solving failed.
    CaptchaFailed(String),
    /// Token extraction failed.
    TokenExtractionFailed,
    /// Cookie extraction failed.
    CookieExtractionFailed(String),
    /// Invalid configuration.
    InvalidConfig(String),
    /// Invalid URL.
    InvalidUrl(String),
    /// Missing required parameter.
    MissingParameter(String),
    /// Proxy error.
    ProxyError(String),
    /// Internal error.
    Internal(String),
}

impl ChaserError {
    /// The number that stands for the kind of error across a foreign interface.
    pub open spec fn spec_code(self) -> i32 {
        match self {
            ChaserError::NotInitialized => 1,
            ChaserError::InitFailed(_) => 2,
            ChaserError::ContextFailed(_) => 3,
            ChaserError::PageFailed(_) => 4,
            ChaserError::NavigationFailed(_) => 5,
            ChaserError::Timeout(_) => 6,
            ChaserError::CaptchaFailed(_) => 7,
            ChaserError::TokenExtractionFailed => 8,
            ChaserError::CookieExtractionFailed(_) => 9,
            ChaserError::InvalidConfig(_) => 10,
            ChaserError::InvalidUrl(_) => 11,
            ChaserError::MissingParameter(_) => 12,
            ChaserError::ProxyError(_) => 13,
            ChaserError::Internal(_) => 99,
        }
    }

    /// Get the error code for a foreign interface.
    pub fn code(&self) -> (r: i32)
        ensures
            r == self.spec_code(),
    {
        match self {
            ChaserError::NotInitialized => 1,
            ChaserError::InitFailed(_) => 2,
            ChaserError::ContextFailed(_) => 3,
            ChaserError::PageFailed(_) => 4,
            ChaserError::NavigationFailed(_) => 5,
            ChaserError::Timeout(_) => 6,
            ChaserError::CaptchaFailed(_) => 7,
            ChaserError::TokenExtractionFailed => 8,
            ChaserError::CookieExtractionFailed(_) => 9,
            ChaserError::InvalidConfig(_) => 10,
            ChaserError::InvalidUrl(_) => 11,
            ChaserError::MissingParameter(_) => 12,
            ChaserError::ProxyError(_) => 13,
            ChaserError::Internal(_) => 99,
        }
    }

    /// The sentence that tells a person what went wrong.
    pub open spec fn text(self) -> Seq<char> {
        match self {
            ChaserError::NotInitialized =>
                "Browser not initialized. Call init() first or use lazy initialization."@,
            ChaserError::InitFailed(m) => "Failed to initialize browser: "@ + m@,
            ChaserError::ContextFailed(m) => "Failed to create browser context: "@ + m@,
            ChaserError::PageFailed(m) => "Failed to create page: "@ + m@,
            ChaserError::NavigationFailed(m) => "Navigation failed: "@ + m@,
            ChaserError::Timeout(ms) => "Operation timed out after "@ + decimal(ms as nat) + "ms"@,
            ChaserError::CaptchaFailed(m) => "Failed to solve captcha: "@ + m@,
            ChaserError::TokenExtractionFailed => "Failed to extract token"@,
            ChaserError::CookieExtractionFailed(m) => "Failed to extract cookies: "@ + m@,
            ChaserError::InvalidConfig(m) => "Invalid configuration: "@ + m@,
            ChaserError::InvalidUrl(m) => "Invalid URL: "@ + m@,
            ChaserError::MissingParameter(m) => "Missing required parameter: "@ + m@,
            ChaserError::ProxyError(m) => "Proxy error: "@ + m@,
            ChaserError::Internal(m) => "Internal error: "@ + m@,
        }
    }

    /// The sentence that tells a person what went wrong.
    pub fn message(&self) -> (r: String)
        ensures
            r@ == self.text(),
    {
        match self {
            ChaserError::NotInitialized =>
                "Browser not initialized. Call init() first or use lazy initialization.".to_owned(),
            ChaserError::InitFailed(m) => concat("Failed to initialize browser: ", m.as_str()),
            ChaserError::ContextFailed(m) => concat(
                "Failed to create browser context: ",
                m.as_str(),
            ),
            ChaserError::PageFailed(m) => concat("Failed to create page: ", m.as_str()),
            ChaserError::NavigationFailed(m) => concat("Navigation failed: ", m.as_str()),
            ChaserError::Timeout(ms) => concat3(
                "Operation timed out after ",
                decimal_string(*ms as u128).as_str(),
                "ms",
            ),
            ChaserError::CaptchaFailed(m) => concat("Failed to solve captcha: ", m.as_str()),
            ChaserError::TokenExtractionFailed => "Failed to extract token".to_owned(),
            ChaserError::CookieExtractionFailed(m) => concat(
                "Failed to extract cookies: ",
                m.as_str(),
            ),
            ChaserError::InvalidConfig(m) => concat("Invalid configuration: ", m.as_str()),
            ChaserError::InvalidUrl(m) => concat("Invalid URL: ", m.as_str()),
            ChaserError::MissingParameter(m) => concat("Missing required parameter: ", m.as_str()),
            ChaserError::ProxyError(m) => concat("Proxy error: ", m.as_str()),
            ChaserError::Internal(m) => concat("Internal error: ", m.as_str()),
        }
    }
}

/// The error of tokio's timer when a deadline passes.
#[verifier::external_type_specification]
#[verifier::external_body]
pub struct ExElapsed(tokio::time::error::Elapsed);

impl From<tokio::time::error::Elapsed> for ChaserError {
    fn from(err: tokio::time::error::Elapsed) -> (r: ChaserError) {
        ChaserError::Timeout(0)
    }
}

impl vstd::std_specs::convert::FromSpecImpl<tokio::time::error::Elapsed> for ChaserError {
    open spec fn obeys_from_spec() -> bool {
        true
    }

    open spec fn from_spec(err: tokio::time::error::Elapsed) -> ChaserError {
        ChaserError::Timeout(0)
    }
}

/// The error of the url crate for a text that is no URL.
#[verifier::external_type_specification]
#[verifier::external_body]
pub struct ExUrlParseError(url::ParseError);

/// The sentence that the url crate writes for its error.
pub uninterp spec fn url_error_text(err: url::ParseError) -> Seq<char>;

/// `url::ParseError` as text, through its `Display`.
#[verifier::external_body]
fn describe_url_error(err: &url::ParseError) -> (r: String)
    ensures
        r@ == url_error_text(*err),
{
    err.to_string()
}

impl From<url::ParseError> for ChaserError {
    fn from(err: url::ParseError) -> (r: ChaserError)
        ensures
            r is InvalidUrl,
            r->InvalidUrl_0@ == url_error_text(err),
    {
        ChaserError::InvalidUrl(describe_url_error(&err))
    }
}

// A text determines no `String` value in ghost code, so `from` states its own result.
impl vstd::std_specs::convert::FromSpecImpl<url::ParseError> for ChaserError {
    open spec fn obeys_from_spec() -> bool {
        false
    }

    open spec fn from_spec(err: url::ParseError) -> ChaserError {
        arbitrary()
    }
}

/// An error of any kind, wrapped by anyhow.
#[verifier::external_type_specification]
#[verifier::external_body]
pub struct ExAnyhowError(anyhow::Error);

/// `anyhow::Error` as text, through its `Display`. That hands over to the `Display` of whatever
/// error is wrapped, so nothing is known of the text but that this call gave it.
#[verifier::external_body]
fn describe_any_error(err: &anyhow::Error) -> (r: String)
{
    err.to_string()
}

/// Whether an error gave that text of itself.
pub closed spec fn gave_text(err: anyhow::Error, text: String) -> bool {
    call_ensures(describe_any_error, (&err,), text)
}

/// The internal error with that text.
pub fn internal(text: String) -> (r: ChaserError)
    ensures
        r == ChaserError::Internal(text),
{
    ChaserError::Internal(text)
}

impl From<anyhow::Error> for ChaserError {
    /// An internal error with the text that the wrapped one gives of itself.
    fn from(err: anyhow::Error) -> (r: ChaserError)
        ensures
            r is Internal,
            gave_text(err, r->Internal_0),
    {
        internal(describe_any_error(&err))
    }
}

impl vstd::std_specs::convert::FromSpecImpl<anyhow::Error> for ChaserError {
    open spec fn obeys_from_spec() -> bool {
        false
    }

    open spec fn from_spec(err: anyhow::Error) -> ChaserError {
        arbitrary()
    }
}

/// The sentence of an error begins with what failed and ends with the words that came with it,
/// whatever they are.
pub proof fn law_errors_say_what_failed(m: String, ms: u64)
    ensures
        ChaserError::InitFailed(m).text() == "Failed to initialize browser: "@ + m@,
        ChaserError::ContextFailed(m).text() == "Failed to create browser context: "@ + m@,
        ChaserError::PageFailed(m).text() == "Failed to create page: "@ + m@,
        ChaserError::NavigationFailed(m).text() == "Navigation failed: "@ + m@,
        ChaserError::CaptchaFailed(m).text() == "Failed to solve captcha: "@ + m@,
        ChaserError::CookieExtractionFailed(m).text() == "Failed to extract cookies: "@ + m@,
        ChaserError::InvalidConfig(m).text() == "Invalid configuration: "@ + m@,
        ChaserError::InvalidUrl(m).text() == "Invalid URL: "@ + m@,
        ChaserError::MissingParameter(m).text() == "Missing required parameter: "@ + m@,
        ChaserError::ProxyError(m).text() == "Proxy error: "@ + m@,
        ChaserError::Internal(m).text() == "Internal error: "@ + m@,
        ChaserError::Timeout(ms).text() == "Operation timed out after "@ + decimal(ms as nat)
            + "ms"@,
        ChaserError::TokenExtractionFailed.text() == "Failed to extract token"@,
        ChaserError::NotInitialized.text()
            == "Browser not initialized. Call init() first or use lazy initialization."@,
{
}

/// The number of an error tells its kind and nothing else: every kind has its own, whatever came
/// with the error.
pub proof fn law_codes_tell_the_kind(e: ChaserError)
    ensures
        e.spec_code() == 1 <==> e is NotInitialized,
        e.spec_code() == 2 <==> e is InitFailed,
        e.spec_code() == 3 <==> e is ContextFailed,
        e.spec_code() == 4 <==> e is PageFailed,
        e.spec_code() == 5 <==> e is NavigationFailed,
        e.spec_code() == 6 <==> e is Timeout,
        e.spec_code() == 7 <==> e is CaptchaFailed,
        e.spec_code() == 8 <==> e is TokenExtractionFailed,
        e.spec_code() == 9 <==> e is CookieExtractionFailed,
        e.spec_code() == 10 <==> e is InvalidConfig,
        e.spec_code() == 11 <==> e is InvalidUrl,
        e.spec_code() == 12 <==> e is MissingParameter,
        e.spec_code() == 13 <==> e is ProxyError,
        e.spec_code() == 99 <==> e is Internal,
{
}

/// The text that an error gave of itself is one that it can give.
proof fn law_given_texts_are_the_errors_own(err: anyhow::Error, text: String)
    ensures
        gave_text(err, text) <==> call_ensures(describe_any_error, (&err,), text),
{
}

} // verus!
