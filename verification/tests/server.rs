use std::sync::atomic::Ordering;

use media_prompt::error::AppError;
use media_prompt::server::body::{BodyMeter, MAX_BODY_BYTES};
use media_prompt::server::handler::{
    health_response, metrics_response, mock_llm_response, problem_response, route, serves_on,
    Problem, Route,
};
use media_prompt::server::rate_limit::{outlives_eviction, refusal};
use media_prompt::server::state::{
    dependency_status, CheckOutcome, DependencyStatus, HealthState, MetricsSnapshot,
    ServiceMetrics,
};

fn all_passed() -> HealthState {
    HealthState {
        rabbitmq: CheckOutcome::Passed,
        consume_queue: CheckOutcome::Passed,
        downstream_queue: CheckOutcome::Passed,
        mongodb: CheckOutcome::Passed,
        mysql: CheckOutcome::Passed,
    }
}

#[test]
fn metrics_are_rendered() {
    let m = MetricsSnapshot {
        http_requests_total: 1,
        healthz_requests_total: 2,
        readyz_requests_total: 3,
        metrics_requests_total: 4,
        mock_llm_requests_total: 5,
        health_checks_total: 6,
        health_checks_failed_total: 7,
        health_check_duration_ms_sum: 8,
        health_check_last_duration_ms: 9,
        health_check_last_ok: 0,
        rate_limited_total: 18446744073709551615,
    };
    assert_eq!(
        m.render(),
        "# HELP media_prompt_http_requests_total Total HTTP requests.\n\
         # TYPE media_prompt_http_requests_total counter\n\
         media_prompt_http_requests_total 1\n\
         # HELP media_prompt_healthz_requests_total Total /healthz requests.\n\
         # TYPE media_prompt_healthz_requests_total counter\n\
         media_prompt_healthz_requests_total 2\n\
         # HELP media_prompt_readyz_requests_total Total /readyz requests.\n\
         # TYPE media_prompt_readyz_requests_total counter\n\
         media_prompt_readyz_requests_total 3\n\
         # HELP media_prompt_metrics_requests_total Total /metrics requests.\n\
         # TYPE media_prompt_metrics_requests_total counter\n\
         media_prompt_metrics_requests_total 4\n\
         # HELP media_prompt_mock_llm_requests_total Total /mock-llm requests.\n\
         # TYPE media_prompt_mock_llm_requests_total counter\n\
         media_prompt_mock_llm_requests_total 5\n\
         # HELP media_prompt_health_checks_total Total dependency health checks.\n\
         # TYPE media_prompt_health_checks_total counter\n\
         media_prompt_health_checks_total 6\n\
         # HELP media_prompt_health_checks_failed_total Failed dependency health checks.\n\
         # TYPE media_prompt_health_checks_failed_total counter\n\
         media_prompt_health_checks_failed_total 7\n\
         # HELP media_prompt_health_check_duration_ms_sum Sum of dependency check duration in ms.\n\
         # TYPE media_prompt_health_check_duration_ms_sum counter\n\
         media_prompt_health_check_duration_ms_sum 8\n\
         # HELP media_prompt_health_check_last_duration_ms Last dependency check duration in ms.\n\
         # TYPE media_prompt_health_check_last_duration_ms gauge\n\
         media_prompt_health_check_last_duration_ms 9\n\
         # HELP media_prompt_health_check_last_ok Last dependency check status (1=ok,0=degraded).\n\
         # TYPE media_prompt_health_check_last_ok gauge\n\
         media_prompt_health_check_last_ok 0\n\
         # HELP media_prompt_rate_limited_total Total rate-limited requests.\n\
         # TYPE media_prompt_rate_limited_total counter\n\
         media_prompt_rate_limited_total 18446744073709551615\n"
    );
}

#[test]
fn counters_are_read_when_rendered() {
    let metrics = ServiceMetrics::default();
    assert!(metrics.render_prometheus().contains("\nmedia_prompt_readyz_requests_total 0\n"));
    metrics.readyz_requests_total.fetch_add(3, Ordering::Relaxed);
    metrics.rate_limited_total.store(8, Ordering::Relaxed);
    let text = metrics.render_prometheus();
    assert!(text.contains("\nmedia_prompt_readyz_requests_total 3\n"));
    assert!(text.contains("\nmedia_prompt_healthz_requests_total 0\n"));
    assert!(text.ends_with("media_prompt_rate_limited_total 8\n"));
    assert_eq!(text.lines().count(), 33);
}

#[test]
fn all_checks_passed() {
    let r = all_passed().check(Some(1_700_000_000_000));
    assert_eq!(r.status, "ok");
    assert_eq!(r.timestamp_ms, 1_700_000_000_000);
    assert_eq!(r.http_status(), 200);
    assert!(r.dependencies.all_ok());
    assert_eq!(r.dependencies.mysql.detail, None);
}

#[test]
fn one_failed_check_degrades() {
    for i in 0..5 {
        let mut s = all_passed();
        let failed = CheckOutcome::Failed(AppError::RabbitMq("down".to_string()));
        match i {
            0 => s.rabbitmq = failed,
            1 => s.consume_queue = failed,
            2 => s.downstream_queue = failed,
            3 => s.mongodb = failed,
            _ => s.mysql = CheckOutcome::TimedOut,
        }
        let r = s.check(None);
        assert_eq!(r.status, "degraded");
        assert_eq!(r.http_status(), 503);
        assert_eq!(r.timestamp_ms, 0);
        let d = r.dependencies;
        let details: Vec<Option<&str>> = vec![
            d.rabbitmq.detail.as_deref(),
            d.consume_queue.detail.as_deref(),
            d.downstream_queue.detail.as_deref(),
            d.mongodb.detail.as_deref(),
            d.mysql.detail.as_deref(),
        ];
        let expected = [
            "rabbitmq check failed: RabbitMQ error: down",
            "consume_queue check failed: RabbitMQ error: down",
            "downstream_queue check failed: RabbitMQ error: down",
            "mongodb check failed: RabbitMQ error: down",
            "mysql check timed out",
        ];
        for j in 0..5 {
            assert_eq!(details[j], if i == j { Some(expected[j]) } else { None });
        }
    }
}

#[test]
fn dependency_statuses() {
    let s = dependency_status("x", CheckOutcome::Passed);
    assert!(s.ok && s.detail.is_none());
    let s = dependency_status("x", CheckOutcome::TimedOut);
    assert!(!s.ok);
    assert_eq!(s.detail.as_deref(), Some("x check timed out"));
    assert!(DependencyStatus::healthy().ok);
    let s = DependencyStatus::unhealthy("why".to_string());
    assert!(!s.ok);
    assert_eq!(s.detail.as_deref(), Some("why"));
}

const SECURITY: [(&str, &str); 3] =
    [("X-Content-Type-Options", "nosniff"), ("X-Frame-Options", "DENY"), ("Cache-Control", "no-store")];

#[test]
fn requests_over_the_limit_are_refused() {
    assert!(refusal(true).is_none());
    let (status, headers, body) = refusal(false).unwrap().into_parts();
    assert_eq!(status, 429);
    assert_eq!(headers[..2], [("Content-Type", "application/json"), ("Retry-After", "1")]);
    assert_eq!(headers[2..], SECURITY);
    assert_eq!(body, r#"{"error":"rate_limited"}"#);
}

#[test]
fn every_response_is_secured() {
    let healthy = all_passed().check(None);
    let mut state = all_passed();
    state.mysql = CheckOutcome::TimedOut;
    let degraded = state.check(None);
    let cases = vec![
        (health_response(&healthy, "h".to_string()), 200, "application/json", "h"),
        (health_response(&degraded, "d".to_string()), 503, "application/json", "d"),
        (metrics_response("m".to_string()), 200, "text/plain; version=0.0.4", "m"),
        (
            mock_llm_response(),
            200,
            "application/json",
            r#"{"text":"mock prompt","usage":{"total_tokens":0}}"#,
        ),
        (
            problem_response(Problem::NotFound),
            404,
            "application/json",
            r#"{"error":"not_found"}"#,
        ),
        (
            problem_response(Problem::MethodNotAllowed),
            405,
            "application/json",
            r#"{"error":"method_not_allowed"}"#,
        ),
        (
            problem_response(Problem::BodyTooLarge),
            413,
            "application/json",
            r#"{"error":"payload_too_large"}"#,
        ),
        (
            problem_response(Problem::BodyBroken),
            400,
            "application/json",
            r#"{"error":"bad_request"}"#,
        ),
        (
            problem_response(Problem::Internal),
            500,
            "application/json",
            r#"{"error":"internal_error"}"#,
        ),
    ];
    for (response, expected_status, content_type, expected_body) in cases {
        let (status, headers, body) = response.into_parts();
        assert_eq!(status, expected_status);
        assert_eq!(headers[..1], [("Content-Type", content_type)]);
        assert_eq!(headers[1..], SECURITY);
        assert_eq!(body, expected_body);
    }
}

#[test]
fn bodies_are_limited() {
    let meter = BodyMeter::start();
    assert!(meter.take(MAX_BODY_BYTES).is_some());
    assert!(meter.take(MAX_BODY_BYTES + 1).is_none());
    assert!(meter.take(u64::MAX).is_none());
    let meter = meter.take(MAX_BODY_BYTES - 1).unwrap().take(1).unwrap();
    assert!(meter.take(0).is_some());
    assert!(meter.take(1).is_none());
}

#[test]
fn idle_clients_are_forgotten() {
    assert!(outlives_eviction(599, 999_999_999, 600));
    assert!(outlives_eviction(600, 0, 600));
    assert!(!outlives_eviction(600, 1, 600));
    assert!(!outlives_eviction(601, 0, 600));
    assert!(outlives_eviction(0, 0, 0));
}

#[test]
fn routes() {
    assert_eq!(route("GET", "/healthz", false), Route::Healthz);
    assert_eq!(route("GET", "/readyz", false), Route::Readyz);
    assert_eq!(route("GET", "/metrics", false), Route::Metrics);
    assert_eq!(route("POST", "/mock-llm", true), Route::MockLlm);
    assert_eq!(route("POST", "/mock-llm", false), Route::NotFound);
    assert_eq!(route("GET", "/mock-llm", true), Route::MethodNotAllowed);
    assert_eq!(route("POST", "/healthz", true), Route::MethodNotAllowed);
    assert_eq!(route("DELETE", "/metrics", true), Route::MethodNotAllowed);
    assert_eq!(route("GET", "/", true), Route::NotFound);
    assert_eq!(route("GET", "/healthz/", true), Route::NotFound);
}

#[test]
fn servers_stop_at_shutdown() {
    assert!(serves_on(false, false));
    assert!(!serves_on(true, false));
    assert!(!serves_on(false, true));
}
