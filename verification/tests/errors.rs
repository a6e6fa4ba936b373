use media_prompt::error::{AppError, LlmError};
use media_prompt::task::storyboard::{
    extract_duration_ms, extract_error_code, extract_response_snippet, extract_retries,
};

#[test]
fn lasting_errors() {
    let e = LlmError::non_retryable(404, "gone".to_string());
    assert_eq!(e.status_code, Some(404));
    assert!(!e.retryable);
    assert_eq!(e.message, "gone");
    assert_eq!(e.error_code(), Some("HTTP_404"));
    assert_eq!(e.response_snippet(), None);
    let e = LlmError::non_retryable_with_meta(
        200,
        "CODE".to_string(),
        "m".to_string(),
        Some("body".to_string()),
    );
    assert!(!e.retryable);
    assert_eq!(e.error_code(), Some("CODE"));
    assert_eq!(e.response_snippet(), Some("body"));
}

#[test]
fn transient_errors() {
    let e = LlmError::retryable(Some(503), "busy".to_string());
    assert!(e.retryable);
    assert_eq!(e.error_code(), Some("HTTP_503"));
    let e = LlmError::retryable(None, "busy".to_string());
    assert_eq!(e.error_code(), Some("RETRYABLE_ERROR"));
    assert_eq!(e.status_code, None);
    let e = LlmError::retryable_with_meta(Some(500), "C".to_string(), "m".to_string(), None);
    assert!(e.retryable);
    assert_eq!(e.status_code, Some(500));
    assert_eq!(e.error_code(), Some("C"));
    let e = LlmError::network("down".to_string());
    assert!(e.retryable);
    assert_eq!(e.status_code, None);
    assert_eq!(e.error_code(), Some("NETWORK_ERROR"));
}

#[test]
fn attempts_are_noted() {
    let e = LlmError::network("down".to_string());
    assert_eq!((e.retries(), e.duration_ms()), (None, None));
    let e = e.with_attempt_meta(3, 7_000);
    assert_eq!((e.retries(), e.duration_ms()), (Some(3), Some(7_000)));
    assert_eq!(e.message, "down");
}

#[test]
fn empty_error() {
    let e = LlmError::default();
    assert_eq!(e.message, "");
    assert!(!e.retryable);
    assert_eq!(e.error_code(), None);
}

#[test]
fn error_texts() {
    let m = || "x".to_string();
    assert_eq!(AppError::Config(m()).message(), "Config error: x");
    assert_eq!(AppError::RabbitMq(m()).message(), "RabbitMQ error: x");
    assert_eq!(AppError::MongoDb(m()).message(), "MongoDB error: x");
    assert_eq!(AppError::MySql(m()).message(), "MySQL error: x");
    assert_eq!(AppError::Http(m()).message(), "HTTP error: x");
    assert_eq!(AppError::Serde(m()).message(), "Serialization error: x");
    assert_eq!(AppError::TaskFailed(m()).message(), "Task failed: x");
    assert_eq!(AppError::from(LlmError::network(m())).message(), "LLM error: x");
}

#[test]
fn details_come_from_llm_errors_only() {
    let e = AppError::Llm(
        LlmError::non_retryable_with_meta(
            400,
            "HTTP_400".to_string(),
            "m".to_string(),
            Some("body".to_string()),
        )
        .with_attempt_meta(1, 20),
    );
    assert_eq!(extract_duration_ms(&e), Some(20));
    assert_eq!(extract_retries(&e), Some(1));
    assert_eq!(extract_error_code(&e).as_deref(), Some("HTTP_400"));
    assert_eq!(extract_response_snippet(&e).as_deref(), Some("body"));
    let e = AppError::TaskFailed("x".to_string());
    assert_eq!(extract_duration_ms(&e), None);
    assert_eq!(extract_retries(&e), None);
    assert_eq!(extract_error_code(&e), None);
    assert_eq!(extract_response_snippet(&e), None);
}
