//! User-facing errors: kinds, exit codes, messages with suggestions, and
//! the classification of an error by the text of its message.

pub mod exit_codes;

use crate::text::{chars_of, contains_str, has_substring, lowercase_of};
use vstd::prelude::*;

verus! {

/// Categories of errors that can occur during a speed test.
#[derive(Clone, Copy, Debug, PartialEq, Eq, Structural)]
pub enum ErrorKind {
    /// Network connectivity issues.
    Network,
    /// DNS resolution failures.
    Dns,
    /// Connection timeout.
    Timeout,
    /// TLS/SSL handshake failures.
    Tls,
    /// The API returned an error response.
    Api,
    /// Invalid configuration or arguments.
    Config,
    /// Measurement calculation errors.
    Measurement,
    /// Unknown or unexpected errors.
    Unknown,
}

/// The exit code of each kind of error.
pub open spec fn exit_code_of(kind: ErrorKind) -> i32 {
    match kind {
        ErrorKind::Network | ErrorKind::Dns | ErrorKind::Timeout | ErrorKind::Tls => 1,
        ErrorKind::Api => 2,
        ErrorKind::Config => 3,
        ErrorKind::Measurement => 4,
        ErrorKind::Unknown => 99,
    }
}

/// The description of each kind of error.
pub open spec fn description_of(kind: ErrorKind) -> Seq<char> {
    match kind {
        ErrorKind::Network => "Network error"@,
        ErrorKind::Dns => "DNS resolution error"@,
        ErrorKind::Timeout => "Connection timeout"@,
        ErrorKind::Tls => "TLS/SSL error"@,
        ErrorKind::Api => "API error"@,
        ErrorKind::Config => "Configuration error"@,
        ErrorKind::Measurement => "Measurement error"@,
        ErrorKind::Unknown => "Unknown error"@,
    }
}

/// The suggestion that goes with each kind of error, if any.
pub open spec fn suggestion_of(kind: ErrorKind) -> Option<Seq<char>> {
    match kind {
        ErrorKind::Network => Some("Check your internet connection and try again."@),
        ErrorKind::Dns => Some("Check your DNS settings or try using a different DNS server."@),
        ErrorKind::Timeout => Some("The server may be slow or unreachable. Try again later."@),
        ErrorKind::Tls => Some("There may be a certificate issue. Check your system time."@),
        ErrorKind::Api => Some(
            "The Cloudflare API may be experiencing issues. Try again later."@,
        ),
        _ => None,
    }
}

impl ErrorKind {
    /// The exit code for this kind of error.
    pub fn exit_code(&self) -> (r: i32)
        ensures
            r == exit_code_of(*self),
    {
        match self {
            ErrorKind::Network => exit_codes::NETWORK_ERROR,
            ErrorKind::Dns => exit_codes::NETWORK_ERROR,
            ErrorKind::Timeout => exit_codes::NETWORK_ERROR,
            ErrorKind::Tls => exit_codes::NETWORK_ERROR,
            ErrorKind::Api => exit_codes::API_ERROR,
            ErrorKind::Config => exit_codes::CONFIG_ERROR,
            ErrorKind::Measurement => exit_codes::PARTIAL_FAILURE,
            ErrorKind::Unknown => exit_codes::UNKNOWN_ERROR,
        }
    }

    /// A user-friendly description of this kind of error.
    pub fn description(&self) -> (r: &'static str)
        ensures
            r@ == description_of(*self),
    {
        match self {
            ErrorKind::Network => "Network error",
            ErrorKind::Dns => "DNS resolution error",
            ErrorKind::Timeout => "Connection timeout",
            ErrorKind::Tls => "TLS/SSL error",
            ErrorKind::Api => "API error",
            ErrorKind::Config => "Configuration error",
            ErrorKind::Measurement => "Measurement error",
            ErrorKind::Unknown => "Unknown error",
        }
    }

    /// The suggestion that goes with this kind of error, if any.
    pub fn suggestion(&self) -> (r: Option<&'static str>)
        ensures
            match r {
                Some(s) => suggestion_of(*self) == Some(s@),
                None => suggestion_of(*self) is None,
            },
    {
        match self {
            ErrorKind::Network => Some("Check your internet connection and try again."),
            ErrorKind::Dns => Some("Check your DNS settings or try using a different DNS server."),
            ErrorKind::Timeout => Some("The server may be slow or unreachable. Try again later."),
            ErrorKind::Tls => Some("There may be a certificate issue. Check your system time."),
            ErrorKind::Api => Some(
                "The Cloudflare API may be experiencing issues. Try again later.",
            ),
            _ => None,
        }
    }
}

/// A user-friendly error of a speed test.
#[derive(Clone, Debug)]
pub struct SpeedTestError {
    /// The kind of error.
    pub kind: ErrorKind,
    /// User-friendly error message.
    pub message: String,
    /// Optional suggestion for how to resolve the error.
    pub suggestion: Option<String>,
    /// The message of the underlying error, if any.
    pub source: Option<String>,
}

/// The view of an optional string.
pub open spec fn text_of(s: Option<String>) -> Option<Seq<char>> {
    match s {
        Some(t) => Some(t@),
        None => None,
    }
}

impl SpeedTestError {
    /// An error of the given kind with the given message, without
    /// suggestion or source.
    pub fn new(kind: ErrorKind, message: &str) -> (r: Self)
        ensures
            r.kind == kind,
            r.message@ == message@,
            r.suggestion is None,
            r.source is None,
    {
        SpeedTestError { kind, message: message.to_owned(), suggestion: None, source: None }
    }

    /// The same error with the suggestion set.
    pub fn with_suggestion(self, suggestion: &str) -> (r: Self)
        ensures
            r.kind == self.kind,
            r.message == self.message,
            r.source == self.source,
            text_of(r.suggestion) == Some(suggestion@),
    {
        SpeedTestError {
            kind: self.kind,
            message: self.message,
            suggestion: Some(suggestion.to_owned()),
            source: self.source,
        }
    }

    /// The same error with the message of its underlying error set.
    pub fn with_source(self, source: &str) -> (r: Self)
        ensures
            r.kind == self.kind,
            r.message == self.message,
            r.suggestion == self.suggestion,
            text_of(r.source) == Some(source@),
    {
        SpeedTestError {
            kind: self.kind,
            message: self.message,
            suggestion: self.suggestion,
            source: Some(source.to_owned()),
        }
    }

    /// The exit code for this error.
    pub fn exit_code(&self) -> (r: i32)
        ensures
            r == exit_code_of(self.kind),
    {
        self.kind.exit_code()
    }

    /// An error of the given kind with the kind's own suggestion.
    pub fn of_kind(kind: ErrorKind, message: &str) -> (r: Self)
        ensures
            r.kind == kind,
            r.message@ == message@,
            text_of(r.suggestion) == suggestion_of(kind),
            r.source is None,
    {
        let error = SpeedTestError::new(kind, message);
        match kind.suggestion() {
            Some(s) => error.with_suggestion(s),
            None => error,
        }
    }

    /// A network error.
    pub fn network(message: &str) -> (r: Self)
        ensures
            r.kind == ErrorKind::Network,
            r.message@ == message@,
            text_of(r.suggestion) == suggestion_of(ErrorKind::Network),
            r.source is None,
    {
        SpeedTestError::of_kind(ErrorKind::Network, message)
    }

    /// A DNS error.
    pub fn dns(message: &str) -> (r: Self)
        ensures
            r.kind == ErrorKind::Dns,
            r.message@ == message@,
            text_of(r.suggestion) == suggestion_of(ErrorKind::Dns),
            r.source is None,
    {
        SpeedTestError::of_kind(ErrorKind::Dns, message)
    }

    /// A timeout error.
    pub fn timeout(message: &str) -> (r: Self)
        ensures
            r.kind == ErrorKind::Timeout,
            r.message@ == message@,
            text_of(r.suggestion) == suggestion_of(ErrorKind::Timeout),
            r.source is None,
    {
        SpeedTestError::of_kind(ErrorKind::Timeout, message)
    }

    /// A TLS error.
    pub fn tls(message: &str) -> (r: Self)
        ensures
            r.kind == ErrorKind::Tls,
            r.message@ == message@,
            text_of(r.suggestion) == suggestion_of(ErrorKind::Tls),
            r.source is None,
    {
        SpeedTestError::of_kind(ErrorKind::Tls, message)
    }

    /// An API error.
    pub fn api(message: &str) -> (r: Self)
        ensures
            r.kind == ErrorKind::Api,
            r.message@ == message@,
            text_of(r.suggestion) == suggestion_of(ErrorKind::Api),
            r.source is None,
    {
        SpeedTestError::of_kind(ErrorKind::Api, message)
    }

    /// A configuration error.
    pub fn config(message: &str) -> (r: Self)
        ensures
            r.kind == ErrorKind::Config,
            r.message@ == message@,
            r.suggestion is None,
            r.source is None,
    {
        SpeedTestError::new(ErrorKind::Config, message)
    }

    /// A measurement error.
    pub fn measurement(message: &str) -> (r: Self)
        ensures
            r.kind == ErrorKind::Measurement,
            r.message@ == message@,
            r.suggestion is None,
            r.source is None,
    {
        SpeedTestError::new(ErrorKind::Measurement, message)
    }

    /// The text of the error: `<description>: <message>`, followed on a new
    /// line by its suggestion where it has one.
    pub open spec fn display_text(&self) -> Seq<char> {
        let head = description_of(self.kind) + ": "@ + self.message@;
        match self.suggestion {
            Some(s) => head + "\n  Suggestion: "@ + s@,
            None => head,
        }
    }

    /// The text of the error: `<description>: <message>`, followed on a new
    /// line by its suggestion where it has one.
    pub fn to_string(&self) -> (r: String)
        ensures
            r@ == self.display_text(),
    {
        let mut out = self.kind.description().to_owned();
        out.append(": ");
        out.append(self.message.as_str());
        match &self.suggestion {
            Some(s) => {
                out.append("\n  Suggestion: ");
                out.append(s.as_str());
            },
            None => {},
        }
        out
    }
}

/// The kind of an error whose message, in lower case, is `lower`. The
/// groups of phrases are tried in order: DNS, timeout, TLS, network, API.
pub open spec fn classify_text(lower: Seq<char>) -> ErrorKind {
    if has_substring(lower, "dns"@) || has_substring(lower, "resolve"@) || has_substring(
        lower,
        "no such host"@,
    ) {
        ErrorKind::Dns
    } else if has_substring(lower, "timeout"@) || has_substring(lower, "timed out"@)
        || has_substring(lower, "deadline"@) {
        ErrorKind::Timeout
    } else if has_substring(lower, "tls"@) || has_substring(lower, "ssl"@) || has_substring(
        lower,
        "certificate"@,
    ) || has_substring(lower, "handshake"@) {
        ErrorKind::Tls
    } else if has_substring(lower, "connection refused"@) || has_substring(
        lower,
        "connection reset"@,
    ) || has_substring(lower, "network unreachable"@) || has_substring(
        lower,
        "host unreachable"@,
    ) || has_substring(lower, "no route"@) || has_substring(lower, "broken pipe"@) {
        ErrorKind::Network
    } else if has_substring(lower, "status: 4"@) || has_substring(lower, "status: 5"@)
        || has_substring(lower, "api"@) || has_substring(lower, "server error"@) {
        ErrorKind::Api
    } else {
        ErrorKind::Unknown
    }
}

/// Classifies a message that is already in lower case.
pub fn classify_lowercase(lower: &Vec<char>) -> (r: ErrorKind)
    ensures
        r == classify_text(lower@),
{
    if contains_str(lower, "dns") || contains_str(lower, "resolve") || contains_str(
        lower,
        "no such host",
    ) {
        return ErrorKind::Dns;
    }
    if contains_str(lower, "timeout") || contains_str(lower, "timed out") || contains_str(
        lower,
        "deadline",
    ) {
        return ErrorKind::Timeout;
    }
    if contains_str(lower, "tls") || contains_str(lower, "ssl") || contains_str(
        lower,
        "certificate",
    ) || contains_str(lower, "handshake") {
        return ErrorKind::Tls;
    }
    if contains_str(lower, "connection refused") || contains_str(lower, "connection reset")
        || contains_str(lower, "network unreachable") || contains_str(lower, "host unreachable")
        || contains_str(lower, "no route") || contains_str(lower, "broken pipe") {
        return ErrorKind::Network;
    }
    if contains_str(lower, "status: 4") || contains_str(lower, "status: 5") || contains_str(
        lower,
        "api",
    ) || contains_str(lower, "server error") {
        return ErrorKind::Api;
    }
    ErrorKind::Unknown
}

/// Classifies an error by the text of its message, compared in lower
/// case.
pub fn classify_error(message: &str) -> (r: ErrorKind)
    ensures
        r == classify_text(lowercase_of(message@)),
{
    let lower = message.to_lowercase();
    let chars = chars_of(lower.as_str());
    classify_lowercase(&chars)
}

/// The error for a failure with message `error` met while doing
/// `context`: classified by the message, with the message
/// `<context>: <error>`, the failure as its source and the suggestion of
/// its kind.
pub fn to_speed_test_error(error: &str, context: &str) -> (r: SpeedTestError)
    ensures
        r.kind == classify_text(lowercase_of(error@)),
        r.message@ == context@ + ": "@ + error@,
        text_of(r.source) == Some(error@),
        text_of(r.suggestion) == suggestion_of(r.kind),
{
    let kind = classify_error(error);
    let mut message = context.to_owned();
    message.append(": ");
    message.append(error);
    SpeedTestError::of_kind(kind, message.as_str()).with_source(error)
}

/// The text shown to the user for an error.
pub open spec fn display_form(error: &SpeedTestError) -> Seq<char> {
    let head = "Error: "@ + error.message@;
    match error.suggestion {
        Some(s) => head + "\n\nSuggestion: "@ + s@,
        None => head,
    }
}

/// Formats an error for display: `Error: <message>`, followed after an
/// empty line by its suggestion where it has one.
pub fn format_error_for_display(error: &SpeedTestError) -> (r: String)
    ensures
        r@ == display_form(error),
{
    let mut out = "Error: ".to_owned();
    out.append(error.message.as_str());
    match &error.suggestion {
        Some(s) => {
            out.append("\n\nSuggestion: ");
            out.append(s.as_str());
        },
        None => {},
    }
    out
}

/// What the message of a user error begins with, by kind.
pub open spec fn user_prefix_of(kind: ErrorKind) -> Seq<char> {
    match kind {
        ErrorKind::Network => "Failed to connect to speed.cloudflare.com: "@,
        ErrorKind::Dns => "Failed to resolve speed.cloudflare.com: "@,
        ErrorKind::Timeout => "Connection timed out: "@,
        ErrorKind::Tls => "TLS/SSL connection failed: "@,
        ErrorKind::Api => "Cloudflare API error: "@,
        _ => Seq::empty(),
    }
}

/// What the message of a user error begins with, by kind.
fn user_prefix(kind: ErrorKind) -> (r: &'static str)
    ensures
        match kind {
            ErrorKind::Network | ErrorKind::Dns | ErrorKind::Timeout | ErrorKind::Tls
            | ErrorKind::Api => r@ == user_prefix_of(kind),
            _ => true,
        },
{
    match kind {
        ErrorKind::Network => "Failed to connect to speed.cloudflare.com: ",
        ErrorKind::Dns => "Failed to resolve speed.cloudflare.com: ",
        ErrorKind::Timeout => "Connection timed out: ",
        ErrorKind::Tls => "TLS/SSL connection failed: ",
        ErrorKind::Api => "Cloudflare API error: ",
        _ => "",
    }
}

/// The user-facing error for a failure of the run of the given kind and
/// message: the message behind the kind's prefix, with the kind's
/// suggestion.
pub fn user_error_of_kind(kind: ErrorKind, message: &str) -> (r: SpeedTestError)
    ensures
        r.kind == kind,
        r.message@ == user_prefix_of(kind) + message@,
        text_of(r.suggestion) == suggestion_of(kind),
        r.source is None,
{
    match kind {
        ErrorKind::Network | ErrorKind::Dns | ErrorKind::Timeout | ErrorKind::Tls
        | ErrorKind::Api => {
            let mut text = user_prefix(kind).to_owned();
            text.append(message);
            SpeedTestError::of_kind(kind, text.as_str())
        },
        _ => {
            assert(user_prefix_of(kind) + message@ =~= message@);
            SpeedTestError::new(kind, message)
        },
    }
}

/// The user-facing error for a failure of the run with the given
/// message, classified by that message.
pub fn create_user_error(message: &str) -> (r: SpeedTestError)
    ensures
        r.kind == classify_text(lowercase_of(message@)),
        r.message@ == user_prefix_of(r.kind) + message@,
        text_of(r.suggestion) == suggestion_of(r.kind),
        r.source is None,
{
    user_error_of_kind(classify_error(message), message)
}

} // verus!
