//! What the server reports: counters, and the health of what the service depends on.

use std::sync::atomic::{AtomicU64, Ordering};

use vstd::prelude::*;
use vstd::string::StringExecFns;

use crate::error::{self, AppError, AppErrorView};
use crate::text;

verus! {

/// The counters of the service.
#[derive(Debug, Default)]
pub struct ServiceMetrics {
    pub http_requests_total: AtomicU64,
    pub healthz_requests_total: AtomicU64,
    pub readyz_requests_total: AtomicU64,
    pub metrics_requests_total: AtomicU64,
    pub mock_llm_requests_total: AtomicU64,
    pub health_checks_total: AtomicU64,
    pub health_checks_failed_total: AtomicU64,
    pub health_check_duration_ms_sum: AtomicU64,
    pub health_check_last_duration_ms: AtomicU64,
    pub health_check_last_ok: AtomicU64,
    pub rate_limited_total: AtomicU64,
}

/// The counters of the service as they were read.
#[derive(Debug, Clone, Copy, PartialEq, Eq, Structural)]
pub struct MetricsSnapshot {
    pub http_requests_total: u64,
    pub healthz_requests_total: u64,
    pub readyz_requests_total: u64,
    pub metrics_requests_total: u64,
    pub mock_llm_requests_total: u64,
    pub health_checks_total: u64,
    pub health_checks_failed_total: u64,
    pub health_check_duration_ms_sum: u64,
    pub health_check_last_duration_ms: u64,
    pub health_check_last_ok: u64,
    pub rate_limited_total: u64,
}

/// One metric in the Prometheus text format.
pub open spec fn metric_text(
    name: Seq<char>,
    help: Seq<char>,
    kind: Seq<char>,
    value: u64,
) -> Seq<char> {
    "# HELP "@ + name + " "@ + help + "\n# TYPE "@ + name + " "@ + kind + "\n"@ + name + " "@
        + text::decimal(value as nat) + "\n"@
}

/// All metrics in the Prometheus text format.
pub open spec fn metrics_text(m: MetricsSnapshot) -> Seq<char> {
    metric_text(
        "media_prompt_http_requests_total"@,
        "Total HTTP requests."@,
        "counter"@,
        m.http_requests_total,
    ) + metric_text(
        "media_prompt_healthz_requests_total"@,
        "Total /healthz requests."@,
        "counter"@,
        m.healthz_requests_total,
    ) + metric_text(
        "media_prompt_readyz_requests_total"@,
        "Total /readyz requests."@,
        "counter"@,
        m.readyz_requests_total,
    ) + metric_text(
        "media_prompt_metrics_requests_total"@,
        "Total /metrics requests."@,
        "counter"@,
        m.metrics_requests_total,
    ) + metric_text(
        "media_prompt_mock_llm_requests_total"@,
        "Total /mock-llm requests."@,
        "counter"@,
        m.mock_llm_requests_total,
    ) + metric_text(
        "media_prompt_health_checks_total"@,
        "Total dependency health checks."@,
        "counter"@,
        m.health_checks_total,
    ) + metric_text(
        "media_prompt_health_checks_failed_total"@,
        "Failed dependency health checks."@,
        "counter"@,
        m.health_checks_failed_total,
    ) + metric_text(
        "media_prompt_health_check_duration_ms_sum"@,
        "Sum of dependency check duration in ms."@,
        "counter"@,
        m.health_check_duration_ms_sum,
    ) + metric_text(
        "media_prompt_health_check_last_duration_ms"@,
        "Last dependency check duration in ms."@,
        "gauge"@,
        m.health_check_last_duration_ms,
    ) + metric_text(
        "media_prompt_health_check_last_ok"@,
        "Last dependency check status (1=ok,0=degraded)."@,
        "gauge"@,
        m.health_check_last_ok,
    ) + metric_text(
        "media_prompt_rate_limited_total"@,
        "Total rate-limited requests."@,
        "counter"@,
        m.rate_limited_total,
    )
}

/// Appends one metric in the Prometheus text format.
fn push_metric(out: &mut String, name: &str, help: &str, kind: &str, value: u64)
    ensures
        final(out)@ == old(out)@ + metric_text(name@, help@, kind@, value),
{
    let ghost before = out@;
    out.append("# HELP ");
    out.append(name);
    out.append(" ");
    out.append(help);
    out.append("\n# TYPE ");
    out.append(name);
    out.append(" ");
    out.append(kind);
    out.append("\n");
    out.append(name);
    out.append(" ");
    text::push_decimal(out, value);
    out.append("\n");
    assert(out@ =~= before + metric_text(name@, help@, kind@, value));
}

impl MetricsSnapshot {
    /// The metrics in the Prometheus text format.
    pub fn render(&self) -> (r: String)
        ensures
            r@ == metrics_text(*self),
    {
        let mut out: String = String::new();
        push_metric(
            &mut out,
            "media_prompt_http_requests_total",
            "Total HTTP requests.",
            "counter",
            self.http_requests_total,
        );
        push_metric(
            &mut out,
            "media_prompt_healthz_requests_total",
            "Total /healthz requests.",
            "counter",
            self.healthz_requests_total,
        );
        push_metric(
            &mut out,
            "media_prompt_readyz_requests_total",
            "Total /readyz requests.",
            "counter",
            self.readyz_requests_total,
        );
        push_metric(
            &mut out,
            "media_prompt_metrics_requests_total",
            "Total /metrics requests.",
            "counter",
            self.metrics_requests_total,
        );
        push_metric(
            &mut out,
            "media_prompt_mock_llm_requests_total",
            "Total /mock-llm requests.",
            "counter",
            self.mock_llm_requests_total,
        );
        push_metric(
            &mut out,
            "media_prompt_health_checks_total",
            "Total dependency health checks.",
            "counter",
            self.health_checks_total,
        );
        push_metric(
            &mut out,
            "media_prompt_health_checks_failed_total",
            "Failed dependency health checks.",
            "counter",
            self.health_checks_failed_total,
        );
        push_metric(
            &mut out,
            "media_prompt_health_check_duration_ms_sum",
            "Sum of dependency check duration in ms.",
            "counter",
            self.health_check_duration_ms_sum,
        );
        push_metric(
            &mut out,
            "media_prompt_health_check_last_duration_ms",
            "Last dependency check duration in ms.",
            "gauge",
            self.health_check_last_duration_ms,
        );
        push_metric(
            &mut out,
            "media_prompt_health_check_last_ok",
            "Last dependency check status (1=ok,0=degraded).",
            "gauge",
            self.health_check_last_ok,
        );
        push_metric(
            &mut out,
            "media_prompt_rate_limited_total",
            "Total rate-limited requests.",
            "counter",
            self.rate_limited_total,
        );
        assert(out@ =~= metrics_text(*self));
        out
    }
}

/// Whether a number is what a load of a counter may return.
pub open spec fn reads_as(counter: AtomicU64, value: u64) -> bool {
    call_ensures(AtomicU64::load, (&counter, Ordering::Relaxed), value)
}

/// Whether each number of a snapshot is what a load of its own counter may return.
pub open spec fn snapshot_of(s: ServiceMetrics, m: MetricsSnapshot) -> bool {
    &&& reads_as(s.http_requests_total, m.http_requests_total)
    &&& reads_as(s.healthz_requests_total, m.healthz_requests_total)
    &&& reads_as(s.readyz_requests_total, m.readyz_requests_total)
    &&& reads_as(s.metrics_requests_total, m.metrics_requests_total)
    &&& reads_as(s.mock_llm_requests_total, m.mock_llm_requests_total)
    &&& reads_as(s.health_checks_total, m.health_checks_total)
    &&& reads_as(s.health_checks_failed_total, m.health_checks_failed_total)
    &&& reads_as(s.health_check_duration_ms_sum, m.health_check_duration_ms_sum)
    &&& reads_as(s.health_check_last_duration_ms, m.health_check_last_duration_ms)
    &&& reads_as(s.health_check_last_ok, m.health_check_last_ok)
    &&& reads_as(s.rate_limited_total, m.rate_limited_total)
}

impl ServiceMetrics {
    /// Reads the counters, one after the other.
    fn snapshot(&self) -> (r: MetricsSnapshot)
        ensures
            snapshot_of(*self, r),
    {
        MetricsSnapshot {
            http_requests_total: self.http_requests_total.load(Ordering::Relaxed),
            healthz_requests_total: self.healthz_requests_total.load(Ordering::Relaxed),
            readyz_requests_total: self.readyz_requests_total.load(Ordering::Relaxed),
            metrics_requests_total: self.metrics_requests_total.load(Ordering::Relaxed),
            mock_llm_requests_total: self.mock_llm_requests_total.load(Ordering::Relaxed),
            health_checks_total: self.health_checks_total.load(Ordering::Relaxed),
            health_checks_failed_total: self.health_checks_failed_total.load(Ordering::Relaxed),
            health_check_duration_ms_sum: self.health_check_duration_ms_sum.load(
                Ordering::Relaxed,
            ),
            health_check_last_duration_ms: self.health_check_last_duration_ms.load(
                Ordering::Relaxed,
            ),
            health_check_last_ok: self.health_check_last_ok.load(Ordering::Relaxed),
            rate_limited_total: self.rate_limited_total.load(Ordering::Relaxed),
        }
    }

    /// The counters, as they are read now, in the Prometheus text format.
    pub fn render_prometheus(&self) -> (r: String)
        ensures
            exists|m: MetricsSnapshot|
                snapshot_of(*self, m) && r@ == #[trigger] metrics_text(m),
    {
        let snapshot: MetricsSnapshot = self.snapshot();
        snapshot.render()
    }
}

/// Whether something that the service depends on works, and what is wrong where it does not.
#[derive(Debug)]
pub struct DependencyStatus {
    pub ok: bool,
    pub detail: Option<String>,
}

/// The contents of a [`DependencyStatus`].
#[verifier::ext_equal]
pub struct DependencyView {
    pub ok: bool,
    pub detail: Option<Seq<char>>,
}

impl View for DependencyStatus {
    type V = DependencyView;

    open spec fn view(&self) -> DependencyView {
        DependencyView { ok: self.ok, detail: text::opt_text(self.detail) }
    }
}

impl DependencyStatus {
    pub fn healthy() -> (r: Self)
        ensures
            r@ == (DependencyView { ok: true, detail: None }),
    {
        DependencyStatus { ok: true, detail: None }
    }

    pub fn unhealthy(detail: String) -> (r: Self)
        ensures
            r@ == (DependencyView { ok: false, detail: Some(detail@) }),
    {
        DependencyStatus { ok: false, detail: Some(detail) }
    }
}

/// The status of all that the service depends on.
#[derive(Debug)]
pub struct DependencySet {
    pub rabbitmq: DependencyStatus,
    pub consume_queue: DependencyStatus,
    pub downstream_queue: DependencyStatus,
    pub mongodb: DependencyStatus,
    pub mysql: DependencyStatus,
}

/// The report of a health check.
#[derive(Debug)]
pub struct HealthResponse {
    pub status: &'static str,
    pub timestamp_ms: u128,
    pub dependencies: DependencySet,
}

/// Whether all that the service depends on works.
pub open spec fn all_healthy(d: DependencySet) -> bool {
    d.rabbitmq.ok && d.consume_queue.ok && d.downstream_queue.ok && d.mongodb.ok && d.mysql.ok
}

impl DependencySet {
    pub fn all_ok(&self) -> (r: bool)
        ensures
            r == all_healthy(*self),
    {
        self.rabbitmq.ok && self.consume_queue.ok && self.downstream_queue.ok && self.mongodb.ok
            && self.mysql.ok
    }
}

impl HealthResponse {
    /// The HTTP status that the report is sent with.
    pub fn http_status(&self) -> (r: u16)
        ensures
            r == if all_healthy(self.dependencies) {
                200u16
            } else {
                503u16
            },
    {
        if self.dependencies.all_ok() {
            200
        } else {
            503
        }
    }
}

/// What came of checking one thing that the service depends on.
#[derive(Debug)]
pub enum CheckOutcome {
    Passed,
    Failed(AppError),
    /// The check did not end in time.
    TimedOut,
}

/// The contents of a [`CheckOutcome`].
#[verifier::ext_equal]
pub enum CheckView {
    Passed,
    Failed(AppErrorView),
    TimedOut,
}

impl View for CheckOutcome {
    type V = CheckView;

    open spec fn view(&self) -> CheckView {
        match *self {
            CheckOutcome::Passed => CheckView::Passed,
            CheckOutcome::Failed(e) => CheckView::Failed(e@),
            CheckOutcome::TimedOut => CheckView::TimedOut,
        }
    }
}

/// What a check says of the thing that it checked.
pub open spec fn checked(name: Seq<char>, outcome: CheckView) -> DependencyView {
    match outcome {
        CheckView::Passed => DependencyView { ok: true, detail: None },
        CheckView::Failed(e) => DependencyView {
            ok: false,
            detail: Some(name + " check failed: "@ + error::error_text(e)),
        },
        CheckView::TimedOut => DependencyView {
            ok: false,
            detail: Some(name + " check timed out"@),
        },
    }
}

/// What a check says of the thing that it checked.
pub fn dependency_status(name: &str, outcome: CheckOutcome) -> (r: DependencyStatus)
    ensures
        r@ == checked(name@, outcome@),
{
    match outcome {
        CheckOutcome::Passed => DependencyStatus::healthy(),
        CheckOutcome::Failed(e) => {
            let mut detail: String = name.to_owned();
            detail.append(" check failed: ");
            let message: String = e.message();
            detail.append(message.as_str());
            DependencyStatus::unhealthy(detail)
        },
        CheckOutcome::TimedOut => {
            let mut detail: String = name.to_owned();
            detail.append(" check timed out");
            DependencyStatus::unhealthy(detail)
        },
    }
}

/// What came of the checks of all that the service depends on.
#[derive(Debug)]
pub struct HealthState {
    pub rabbitmq: CheckOutcome,
    pub consume_queue: CheckOutcome,
    pub downstream_queue: CheckOutcome,
    pub mongodb: CheckOutcome,
    pub mysql: CheckOutcome,
}

/// Whether all checks passed.
pub open spec fn all_passed(s: HealthState) -> bool {
    s.rabbitmq is Passed && s.consume_queue is Passed && s.downstream_queue is Passed && s.mongodb
        is Passed && s.mysql is Passed
}

impl HealthState {
    /// The report of the checks. `clock_ms` is the time since the epoch, where the clock is not
    /// set before it.
    pub fn check(self, clock_ms: Option<u128>) -> (r: HealthResponse)
        ensures
            r.status@ == if all_passed(self) {
                "ok"@
            } else {
                "degraded"@
            },
            r.timestamp_ms == match clock_ms {
                Some(ms) => ms,
                None => 0,
            },
            r.dependencies.rabbitmq@ == checked("rabbitmq"@, self.rabbitmq@),
            r.dependencies.consume_queue@ == checked("consume_queue"@, self.consume_queue@),
            r.dependencies.downstream_queue@ == checked(
                "downstream_queue"@,
                self.downstream_queue@,
            ),
            r.dependencies.mongodb@ == checked("mongodb"@, self.mongodb@),
            r.dependencies.mysql@ == checked("mysql"@, self.mysql@),
            all_healthy(r.dependencies) == all_passed(self),
    {
        let dependencies = DependencySet {
            rabbitmq: dependency_status("rabbitmq", self.rabbitmq),
            consume_queue: dependency_status("consume_queue", self.consume_queue),
            downstream_queue: dependency_status("downstream_queue", self.downstream_queue),
            mongodb: dependency_status("mongodb", self.mongodb),
            mysql: dependency_status("mysql", self.mysql),
        };
        assert(dependencies.rabbitmq@.ok == dependencies.rabbitmq.ok);
        let all_ok: bool = dependencies.all_ok();
        HealthResponse {
            status: if all_ok {
                "ok"
            } else {
                "degraded"
            },
            timestamp_ms: match clock_ms {
                Some(ms) => ms,
                None => 0,
            },
            dependencies,
        }
    }
}

/// Each metric is reported under its own name, with what it counts, whether it is a counter or a
/// gauge, and the number that was read of it, one after the other.
pub proof fn metrics_are_reported_under_their_names(m: MetricsSnapshot)
    ensures
        ({
            let m1 = "# HELP "@ + "media_prompt_http_requests_total"@ + " "@ + "Total HTTP requests."@
                + "\n# TYPE "@ + "media_prompt_http_requests_total"@ + " "@ + "counter"@ + "\n"@
                + "media_prompt_http_requests_total"@ + " "@ + text::decimal(m.http_requests_total as nat) + "\n"@;
            let m2 = "# HELP "@ + "media_prompt_healthz_requests_total"@ + " "@ + "Total /healthz requests."@
                + "\n# TYPE "@ + "media_prompt_healthz_requests_total"@ + " "@ + "counter"@ + "\n"@
                + "media_prompt_healthz_requests_total"@ + " "@ + text::decimal(m.healthz_requests_total as nat) + "\n"@;
            let m3 = "# HELP "@ + "media_prompt_readyz_requests_total"@ + " "@ + "Total /readyz requests."@
                + "\n# TYPE "@ + "media_prompt_readyz_requests_total"@ + " "@ + "counter"@ + "\n"@
                + "media_prompt_readyz_requests_total"@ + " "@ + text::decimal(m.readyz_requests_total as nat) + "\n"@;
            let m4 = "# HELP "@ + "media_prompt_metrics_requests_total"@ + " "@ + "Total /metrics requests."@
                + "\n# TYPE "@ + "media_prompt_metrics_requests_total"@ + " "@ + "counter"@ + "\n"@
                + "media_prompt_metrics_requests_total"@ + " "@ + text::decimal(m.metrics_requests_total as nat) + "\n"@;
            let m5 = "# HELP "@ + "media_prompt_mock_llm_requests_total"@ + " "@ + "Total /mock-llm requests."@
                + "\n# TYPE "@ + "media_prompt_mock_llm_requests_total"@ + " "@ + "counter"@ + "\n"@
                + "media_prompt_mock_llm_requests_total"@ + " "@ + text::decimal(m.mock_llm_requests_total as nat) + "\n"@;
            let m6 = "# HELP "@ + "media_prompt_health_checks_total"@ + " "@ + "Total dependency health checks."@
                + "\n# TYPE "@ + "media_prompt_health_checks_total"@ + " "@ + "counter"@ + "\n"@
                + "media_prompt_health_checks_total"@ + " "@ + text::decimal(m.health_checks_total as nat) + "\n"@;
            let m7 = "# HELP "@ + "media_prompt_health_checks_failed_total"@ + " "@ + "Failed dependency health checks."@
                + "\n# TYPE "@ + "media_prompt_health_checks_failed_total"@ + " "@ + "counter"@ + "\n"@
                + "media_prompt_health_checks_failed_total"@ + " "@ + text::decimal(m.health_checks_failed_total as nat) + "\n"@;
            let m8 = "# HELP "@ + "media_prompt_health_check_duration_ms_sum"@ + " "@ + "Sum of dependency check duration in ms."@
                + "\n# TYPE "@ + "media_prompt_health_check_duration_ms_sum"@ + " "@ + "counter"@ + "\n"@
                + "media_prompt_health_check_duration_ms_sum"@ + " "@ + text::decimal(m.health_check_duration_ms_sum as nat) + "\n"@;
            let m9 = "# HELP "@ + "media_prompt_health_check_last_duration_ms"@ + " "@ + "Last dependency check duration in ms."@
                + "\n# TYPE "@ + "media_prompt_health_check_last_duration_ms"@ + " "@ + "gauge"@ + "\n"@
                + "media_prompt_health_check_last_duration_ms"@ + " "@ + text::decimal(m.health_check_last_duration_ms as nat) + "\n"@;
            let m10 = "# HELP "@ + "media_prompt_health_check_last_ok"@ + " "@ + "Last dependency check status (1=ok,0=degraded)."@
                + "\n# TYPE "@ + "media_prompt_health_check_last_ok"@ + " "@ + "gauge"@ + "\n"@
                + "media_prompt_health_check_last_ok"@ + " "@ + text::decimal(m.health_check_last_ok as nat) + "\n"@;
            let m11 = "# HELP "@ + "media_prompt_rate_limited_total"@ + " "@ + "Total rate-limited requests."@
                + "\n# TYPE "@ + "media_prompt_rate_limited_total"@ + " "@ + "counter"@ + "\n"@
                + "media_prompt_rate_limited_total"@ + " "@ + text::decimal(m.rate_limited_total as nat) + "\n"@;
            metrics_text(m) == m1 + m2 + m3 + m4 + m5 + m6 + m7 + m8 + m9 + m10 + m11
        }),
{
}

/// A check that passed finds nothing wrong. One that failed names what it checked, and why it
/// failed; one that took too long says so.
pub proof fn checks_say_what_is_wrong(name: Seq<char>, outcome: CheckView)
    ensures
        checked(name, outcome).ok <==> outcome is Passed,
        checked(name, outcome).detail is None <==> outcome is Passed,
        outcome matches CheckView::Failed(e) ==> checked(name, outcome).detail == Some(
            name + " check failed: "@ + error::error_text(e),
        ),
        outcome is TimedOut ==> checked(name, outcome).detail == Some(name + " check timed out"@),
{
}

/// The service is healthy where none of the five things that it depends on is unwell.
pub proof fn one_failure_degrades_the_service(s: HealthState, d: DependencySet)
    ensures
        !all_passed(s) <==> !(s.rabbitmq is Passed) || !(s.consume_queue is Passed) || !(
        s.downstream_queue is Passed) || !(s.mongodb is Passed) || !(s.mysql is Passed),
        !all_healthy(d) <==> !d.rabbitmq.ok || !d.consume_queue.ok || !d.downstream_queue.ok
            || !d.mongodb.ok || !d.mysql.ok,
{
}

/// Each number of a snapshot was read of the counter of its name.
pub proof fn numbers_come_from_their_counters(s: ServiceMetrics, m: MetricsSnapshot)
    requires
        snapshot_of(s, m),
    ensures
        call_ensures(AtomicU64::load, (&s.http_requests_total, Ordering::Relaxed), m.http_requests_total),
        call_ensures(AtomicU64::load, (&s.healthz_requests_total, Ordering::Relaxed), m.healthz_requests_total),
        call_ensures(AtomicU64::load, (&s.readyz_requests_total, Ordering::Relaxed), m.readyz_requests_total),
        call_ensures(AtomicU64::load, (&s.metrics_requests_total, Ordering::Relaxed), m.metrics_requests_total),
        call_ensures(AtomicU64::load, (&s.mock_llm_requests_total, Ordering::Relaxed), m.mock_llm_requests_total),
        call_ensures(AtomicU64::load, (&s.health_checks_total, Ordering::Relaxed), m.health_checks_total),
        call_ensures(AtomicU64::load, (&s.health_checks_failed_total, Ordering::Relaxed), m.health_checks_failed_total),
        call_ensures(AtomicU64::load, (&s.health_check_duration_ms_sum, Ordering::Relaxed), m.health_check_duration_ms_sum),
        call_ensures(AtomicU64::load, (&s.health_check_last_duration_ms, Ordering::Relaxed), m.health_check_last_duration_ms),
        call_ensures(AtomicU64::load, (&s.health_check_last_ok, Ordering::Relaxed), m.health_check_last_ok),
        call_ensures(AtomicU64::load, (&s.rate_limited_total, Ordering::Relaxed), m.rate_limited_total),
{
}

/// The contents of a status are its fields.
pub proof fn status_contents(s: DependencyStatus)
    ensures
        s@.ok == s.ok,
        s.detail matches Some(detail) ==> s@.detail == Some(detail@),
        s.detail is None ==> s@.detail is None,
{
}

/// The contents of an outcome are its kind, and its error where it has one.
pub proof fn outcome_contents(o: CheckOutcome)
    ensures
        o is Passed <==> o@ is Passed,
        o is TimedOut <==> o@ is TimedOut,
        o matches CheckOutcome::Failed(e) ==> o@ == CheckView::Failed(e@),
{
}

} // verus!
