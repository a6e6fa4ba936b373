//! Errors of the service.

use vstd::prelude::*;
use vstd::string::StringExecFns;

use crate::text;

verus! {

/// Any error of the service.
///
/// The variants for the message broker, the two databases, HTTP and serialization hold the text
/// that the failing driver displays for its own error.
#[derive(Debug)]
pub enum AppError {
    Config(String),
    RabbitMq(String),
    MongoDb(String),
    MySql(String),
    Http(String),
    Serde(String),
    Llm(LlmError),
    TaskFailed(String),
}

/// An error of one LLM call, with what decides whether the call is tried again.
#[derive(Debug, Clone)]
pub struct LlmError {
    pub status_code: Option<u16>,
    pub message: String,
    pub retryable: bool,
    pub error_code: Option<String>,
    pub response_snippet: Option<String>,
    pub retries: Option<u32>,
    pub duration_ms: Option<i64>,
}

/// The contents of an [`LlmError`].
#[verifier::ext_equal]
pub struct LlmErrorView {
    pub status_code: Option<u16>,
    pub message: Seq<char>,
    pub retryable: bool,
    pub error_code: Option<Seq<char>>,
    pub response_snippet: Option<Seq<char>>,
    pub retries: Option<u32>,
    pub duration_ms: Option<i64>,
}

/// The contents of an [`AppError`].
#[verifier::ext_equal]
pub enum AppErrorView {
    Config(Seq<char>),
    RabbitMq(Seq<char>),
    MongoDb(Seq<char>),
    MySql(Seq<char>),
    Http(Seq<char>),
    Serde(Seq<char>),
    Llm(LlmErrorView),
    TaskFailed(Seq<char>),
}

impl View for LlmError {
    type V = LlmErrorView;

    open spec fn view(&self) -> LlmErrorView {
        LlmErrorView {
            status_code: self.status_code,
            message: self.message@,
            retryable: self.retryable,
            error_code: text::opt_text(self.error_code),
            response_snippet: text::opt_text(self.response_snippet),
            retries: self.retries,
            duration_ms: self.duration_ms,
        }
    }
}

impl View for AppError {
    type V = AppErrorView;

    open spec fn view(&self) -> AppErrorView {
        match *self {
            AppError::Config(m) => AppErrorView::Config(m@),
            AppError::RabbitMq(m) => AppErrorView::RabbitMq(m@),
            AppError::MongoDb(m) => AppErrorView::MongoDb(m@),
            AppError::MySql(m) => AppErrorView::MySql(m@),
            AppError::Http(m) => AppErrorView::Http(m@),
            AppError::Serde(m) => AppErrorView::Serde(m@),
            AppError::Llm(e) => AppErrorView::Llm(e@),
            AppError::TaskFailed(m) => AppErrorView::TaskFailed(m@),
        }
    }
}

/// The error code of an HTTP status.
pub open spec fn http_code(status: u16) -> Seq<char> {
    "HTTP_"@ + text::decimal(status as nat)
}

/// The text that stands for an error in logs and in stored records.
pub open spec fn error_text(e: AppErrorView) -> Seq<char> {
    match e {
        AppErrorView::Config(m) => "Config error: "@ + m,
        AppErrorView::RabbitMq(m) => "RabbitMQ error: "@ + m,
        AppErrorView::MongoDb(m) => "MongoDB error: "@ + m,
        AppErrorView::MySql(m) => "MySQL error: "@ + m,
        AppErrorView::Http(m) => "HTTP error: "@ + m,
        AppErrorView::Serde(m) => "Serialization error: "@ + m,
        AppErrorView::Llm(e) => "LLM error: "@ + e.message,
        AppErrorView::TaskFailed(m) => "Task failed: "@ + m,
    }
}

/// An error of a call that failed for good, with a code of its own.
pub open spec fn lasting(
    status: u16,
    code: Seq<char>,
    message: Seq<char>,
    snippet: Option<Seq<char>>,
) -> LlmErrorView {
    LlmErrorView {
        status_code: Some(status),
        message,
        retryable: false,
        error_code: Some(code),
        response_snippet: snippet,
        retries: None,
        duration_ms: None,
    }
}

/// An error of a call that is worth another try, with a code of its own.
pub open spec fn transient(
    status: Option<u16>,
    code: Seq<char>,
    message: Seq<char>,
    snippet: Option<Seq<char>>,
) -> LlmErrorView {
    LlmErrorView {
        status_code: status,
        message,
        retryable: true,
        error_code: Some(code),
        response_snippet: snippet,
        retries: None,
        duration_ms: None,
    }
}

/// The same error, with how often the call was retried and how long it took.
pub open spec fn attempted(e: LlmErrorView, retries: u32, duration_ms: i64) -> LlmErrorView {
    LlmErrorView { retries: Some(retries), duration_ms: Some(duration_ms), ..e }
}

/// `prefix` followed by the numeral of an HTTP status.
pub fn status_text(prefix: &str, status: u16) -> (r: String)
    ensures
        r@ == prefix@ + text::decimal(status as nat),
{
    let mut out: String = prefix.to_owned();
    text::push_decimal(&mut out, status as u64);
    out
}

/// `prefix` followed by `rest`.
pub fn prefixed(prefix: &str, rest: &str) -> (r: String)
    ensures
        r@ == prefix@ + rest@,
{
    let mut out: String = prefix.to_owned();
    out.append(rest);
    out
}

impl LlmError {
    /// An HTTP status that no retry can mend.
    pub fn non_retryable(status: u16, message: String) -> (r: Self)
        ensures
            r@ == lasting(status, http_code(status), message@, None),
    {
        LlmError {
            status_code: Some(status),
            message,
            retryable: false,
            error_code: Some(status_text("HTTP_", status)),
            response_snippet: None,
            retries: None,
            duration_ms: None,
        }
    }

    /// As [`LlmError::non_retryable`], with an error code and a piece of the response.
    pub fn non_retryable_with_meta(
        status: u16,
        error_code: String,
        message: String,
        response_snippet: Option<String>,
    ) -> (r: Self)
        ensures
            r@ == lasting(status, error_code@, message@, text::opt_text(response_snippet)),
    {
        LlmError {
            status_code: Some(status),
            message,
            retryable: false,
            error_code: Some(error_code),
            response_snippet,
            retries: None,
            duration_ms: None,
        }
    }

    /// A failure that a retry may mend.
    pub fn retryable(status: Option<u16>, message: String) -> (r: Self)
        ensures
            r@ == transient(
                status,
                match status {
                    Some(s) => http_code(s),
                    None => "RETRYABLE_ERROR"@,
                },
                message@,
                None,
            ),
    {
        let error_code: String = match status {
            Some(s) => status_text("HTTP_", s),
            None => "RETRYABLE_ERROR".to_owned(),
        };
        LlmError {
            status_code: status,
            message,
            retryable: true,
            error_code: Some(error_code),
            response_snippet: None,
            retries: None,
            duration_ms: None,
        }
    }

    /// As [`LlmError::retryable`], with an error code and a piece of the response.
    pub fn retryable_with_meta(
        status: Option<u16>,
        error_code: String,
        message: String,
        response_snippet: Option<String>,
    ) -> (r: Self)
        ensures
            r@ == transient(status, error_code@, message@, text::opt_text(response_snippet)),
    {
        LlmError {
            status_code: status,
            message,
            retryable: true,
            error_code: Some(error_code),
            response_snippet,
            retries: None,
            duration_ms: None,
        }
    }

    /// No response came at all.
    pub fn network(message: String) -> (r: Self)
        ensures
            r@ == transient(None, "NETWORK_ERROR"@, message@, None),
    {
        LlmError {
            status_code: None,
            message,
            retryable: true,
            error_code: Some("NETWORK_ERROR".to_owned()),
            response_snippet: None,
            retries: None,
            duration_ms: None,
        }
    }

    /// Notes how often the call was retried and how long it took in all.
    pub fn with_attempt_meta(self, retries: u32, duration_ms: i64) -> (r: Self)
        ensures
            r@ == attempted(self@, retries, duration_ms),
    {
        LlmError {
            status_code: self.status_code,
            message: self.message,
            retryable: self.retryable,
            error_code: self.error_code,
            response_snippet: self.response_snippet,
            retries: Some(retries),
            duration_ms: Some(duration_ms),
        }
    }

    pub fn duration_ms(&self) -> (r: Option<i64>)
        ensures
            r == self@.duration_ms,
    {
        self.duration_ms
    }

    pub fn retries(&self) -> (r: Option<u32>)
        ensures
            r == self@.retries,
    {
        self.retries
    }

    pub fn error_code(&self) -> (r: Option<&str>)
        ensures
            text::opt_str(r) == self@.error_code,
    {
        text::borrow_opt(&self.error_code)
    }

    pub fn response_snippet(&self) -> (r: Option<&str>)
        ensures
            text::opt_str(r) == self@.response_snippet,
    {
        text::borrow_opt(&self.response_snippet)
    }
}

impl Default for LlmError {
    fn default() -> (r: Self)
        ensures
            r@ == (LlmErrorView {
                status_code: None,
                message: Seq::empty(),
                retryable: false,
                error_code: None,
                response_snippet: None,
                retries: None,
                duration_ms: None,
            }),
    {
        LlmError {
            status_code: None,
            message: String::new(),
            retryable: false,
            error_code: None,
            response_snippet: None,
            retries: None,
            duration_ms: None,
        }
    }
}

impl AppError {
    /// The text that stands for the error in logs and in stored records.
    pub fn message(&self) -> (r: String)
        ensures
            r@ == error_text(self@),
    {
        match self {
            AppError::Config(m) => prefixed("Config error: ", m.as_str()),
            AppError::RabbitMq(m) => prefixed("RabbitMQ error: ", m.as_str()),
            AppError::MongoDb(m) => prefixed("MongoDB error: ", m.as_str()),
            AppError::MySql(m) => prefixed("MySQL error: ", m.as_str()),
            AppError::Http(m) => prefixed("HTTP error: ", m.as_str()),
            AppError::Serde(m) => prefixed("Serialization error: ", m.as_str()),
            AppError::Llm(e) => prefixed("LLM error: ", e.message.as_str()),
            AppError::TaskFailed(m) => prefixed("Task failed: ", m.as_str()),
        }
    }
}

impl From<LlmError> for AppError {
    fn from(e: LlmError) -> (r: Self) {
        AppError::Llm(e)
    }
}

impl vstd::std_specs::convert::FromSpecImpl<LlmError> for AppError {
    open spec fn obeys_from_spec() -> bool {
        true
    }

    open spec fn from_spec(e: LlmError) -> Self {
        AppError::Llm(e)
    }
}

/// The message of an error is kept in its text in full, after words that say where it comes from.
pub proof fn error_texts_keep_the_message(m: Seq<char>, e: LlmErrorView)
    ensures
        error_text(AppErrorView::Config(m)) == "Config error: "@ + m,
        error_text(AppErrorView::RabbitMq(m)) == "RabbitMQ error: "@ + m,
        error_text(AppErrorView::MongoDb(m)) == "MongoDB error: "@ + m,
        error_text(AppErrorView::MySql(m)) == "MySQL error: "@ + m,
        error_text(AppErrorView::Http(m)) == "HTTP error: "@ + m,
        error_text(AppErrorView::Serde(m)) == "Serialization error: "@ + m,
        error_text(AppErrorView::TaskFailed(m)) == "Task failed: "@ + m,
        error_text(AppErrorView::Llm(e)) == "LLM error: "@ + e.message,
{
}

/// An error that lasts and one that may pass differ in nothing but whether they are worth a retry:
/// each keeps its status, code, message and piece of the response, and no attempt is noted yet.
pub proof fn errors_keep_what_they_are_made_of(
    status: u16,
    code: Seq<char>,
    message: Seq<char>,
    snippet: Option<Seq<char>>,
)
    ensures
        ({
            let l = lasting(status, code, message, snippet);
            let t = transient(Some(status), code, message, snippet);
            &&& !l.retryable && t.retryable
            &&& l.status_code == Some(status) && t.status_code == Some(status)
            &&& l.error_code == Some(code) && t.error_code == Some(code)
            &&& l.message == message && t.message == message
            &&& l.response_snippet == snippet && t.response_snippet == snippet
            &&& l.retries is None && t.retries is None
            &&& l.duration_ms is None && t.duration_ms is None
        }),
        transient(None, code, message, snippet) == (LlmErrorView {
            status_code: None,
            ..transient(Some(status), code, message, snippet)
        }),
        http_code(status) == "HTTP_"@ + text::decimal(status as nat),
{
}

/// Noting the attempts of a call changes nothing else of its error.
pub proof fn attempts_are_noted_beside_the_error(e: LlmErrorView, retries: u32, duration_ms: i64)
    ensures
        ({
            let a = attempted(e, retries, duration_ms);
            &&& a.retries == Some(retries)
            &&& a.duration_ms == Some(duration_ms)
            &&& a.status_code == e.status_code
            &&& a.message == e.message
            &&& a.retryable == e.retryable
            &&& a.error_code == e.error_code
            &&& a.response_snippet == e.response_snippet
        }),
{
}

/// The contents of an error of a call are its fields.
pub proof fn llm_error_contents(e: LlmError)
    ensures
        e@.status_code == e.status_code,
        e@.message == e.message@,
        e@.retryable == e.retryable,
        e.error_code matches Some(c) ==> e@.error_code == Some(c@),
        e.error_code is None ==> e@.error_code is None,
        e.response_snippet matches Some(s) ==> e@.response_snippet == Some(s@),
        e.response_snippet is None ==> e@.response_snippet is None,
        e@.retries == e.retries,
        e@.duration_ms == e.duration_ms,
{
}

/// The contents of an error are its variant and what that holds.
pub proof fn app_error_contents(e: AppError)
    ensures
        e matches AppError::Config(m) ==> e@ == AppErrorView::Config(m@),
        e matches AppError::RabbitMq(m) ==> e@ == AppErrorView::RabbitMq(m@),
        e matches AppError::MongoDb(m) ==> e@ == AppErrorView::MongoDb(m@),
        e matches AppError::MySql(m) ==> e@ == AppErrorView::MySql(m@),
        e matches AppError::Http(m) ==> e@ == AppErrorView::Http(m@),
        e matches AppError::Serde(m) ==> e@ == AppErrorView::Serde(m@),
        e matches AppError::Llm(l) ==> e@ == AppErrorView::Llm(l@),
        e matches AppError::TaskFailed(m) ==> e@ == AppErrorView::TaskFailed(m@),
{
}

/// The error code of a status ends in the status, and says that it comes from HTTP.
pub proof fn status_codes_are_written_out(status: u16)
    ensures
        http_code(status) == "HTTP_"@ + text::decimal(status as nat),
{
}

/// An error of a call becomes an error of the service, as it is.
pub proof fn llm_errors_are_taken_over(e: LlmError)
    ensures
        <AppError as vstd::std_specs::convert::FromSpec<LlmError>>::obeys_from_spec(),
        <AppError as vstd::std_specs::convert::FromSpec<LlmError>>::from_spec(e) == AppError::Llm(
            e,
        ),
{
}

} // verus!
