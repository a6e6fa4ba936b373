//! The rules of an LLM call: which adapter serves it, how its replies are read, and when it is
//! tried again.

use vstd::arithmetic::power2;
use vstd::prelude::*;
use vstd::string::StringExecFns;

use crate::config::LlmConfig;
use crate::error::{self, prefixed, status_text, AppError, AppErrorView, LlmError, LlmErrorView};
use crate::llm::json;
use crate::llm::types::{
    self,
    supported_llm_providers,
    CallMetrics,
    CallMetricsView,
    LlmAdapter,
    LlmResponse,
    LlmResult,
    LlmResultView,
    OpenAiCompatibleAdapter,
    ParsedLlmResponse,
    ParsedView,
    PromptContext,
    PromptContextView,
    RequestBody,
    SimpleTextJsonAdapter,
    PROVIDER_OPENAI_COMPATIBLE,
    PROVIDER_SIMPLE_TEXT_JSON,
};
use crate::text;

verus! {

/// The adapter of a provider.
#[derive(Debug, Clone, Copy)]
pub enum Adapter {
    OpenAiCompatible(OpenAiCompatibleAdapter),
    SimpleTextJson(SimpleTextJsonAdapter),
}

/// The adapter for a provider's name, which is taken without surrounding white space and without
/// regard to ASCII case.
pub open spec fn adapter_for(provider: Seq<char>) -> Option<Adapter> {
    let name = text::ascii_lower(text::trimmed(provider));
    if name == "openai_compatible"@ {
        Some(Adapter::OpenAiCompatible(OpenAiCompatibleAdapter))
    } else if name == "simple_text_json"@ {
        Some(Adapter::SimpleTextJson(SimpleTextJsonAdapter))
    } else {
        None
    }
}

/// The message about a provider that is not supported.
pub open spec fn unsupported_text(provider: Seq<char>) -> Seq<char> {
    "Unsupported llm.provider `"@ + provider + "`. Supported values: "@ + text::joined(
        seq!["openai_compatible"@, "simple_text_json"@],
        ", "@,
    )
}

/// Selects the adapter for a provider's name.
pub fn build_adapter(provider: &str) -> (r: Result<Adapter, AppError>)
    ensures
        match adapter_for(provider@) {
            Some(a) => r == Ok::<Adapter, AppError>(a),
            None => r matches Err(AppError::Config(m)) && m@ == unsupported_text(provider@),
        },
{
    let trimmed = text::trim_chars(provider);
    let name = text::lower_chars(trimmed.as_slice());
    let openai = text::chars_of(PROVIDER_OPENAI_COMPATIBLE);
    if text::same_chars(name.as_slice(), openai.as_slice()) {
        return Ok(Adapter::OpenAiCompatible(OpenAiCompatibleAdapter));
    }
    let simple = text::chars_of(PROVIDER_SIMPLE_TEXT_JSON);
    if text::same_chars(name.as_slice(), simple.as_slice()) {
        return Ok(Adapter::SimpleTextJson(SimpleTextJsonAdapter));
    }
    let mut message: String = prefixed("Unsupported llm.provider `", provider);
    message.append("`. Supported values: ");
    message.append(text::join(supported_llm_providers(), ", ").as_str());
    Err(AppError::Config(message))
}

/// What came of sending a request: nothing but an error text, or a status and the body, or the
/// text of the error that kept the body from being read.
pub enum HttpReply {
    Unreachable(String),
    Answered { status: u16, body: Result<String, String> },
}

/// The contents of an [`HttpReply`].
#[verifier::ext_equal]
pub enum HttpReplyView {
    Unreachable(Seq<char>),
    Answered { status: u16, body: Result<Seq<char>, Seq<char>> },
}

impl View for HttpReply {
    type V = HttpReplyView;

    open spec fn view(&self) -> HttpReplyView {
        match *self {
            HttpReply::Unreachable(reason) => HttpReplyView::Unreachable(reason@),
            HttpReply::Answered { status, body } => HttpReplyView::Answered {
                status,
                body: match body {
                    Ok(s) => Ok(s@),
                    Err(s) => Err(s@),
                },
            },
        }
    }
}

/// The body of a successful reply, or the error that another reply means.
pub open spec fn accepted(reply: HttpReplyView) -> Result<(u16, Seq<char>), LlmErrorView> {
    match reply {
        HttpReplyView::Unreachable(reason) => Err(
            error::transient(None, "NETWORK_ERROR"@, "Network error: "@ + reason, None),
        ),
        HttpReplyView::Answered { status, body } => if 200 <= status < 300 {
            match body {
                Ok(s) => Ok((status, s)),
                Err(reason) => Err(
                    error::lasting(
                        status,
                        error::http_code(status),
                        "Failed to read successful response body: "@ + reason,
                        None,
                    ),
                ),
            }
        } else {
            let snippet = Some(
                text::first_chars(
                    match body {
                        Ok(s) => s,
                        Err(_) => Seq::empty(),
                    },
                    500,
                ),
            );
            if 400 <= status < 500 {
                Err(
                    error::lasting(
                        status,
                        error::http_code(status),
                        "Client error "@ + text::decimal(status as nat),
                        snippet,
                    ),
                )
            } else {
                Err(
                    error::transient(
                        Some(status),
                        error::http_code(status),
                        "Server error "@ + text::decimal(status as nat),
                        snippet,
                    ),
                )
            }
        },
    }
}

/// The piece of an error response that is kept.
pub fn response_snippet(body: &str) -> (r: String)
    ensures
        r@ == text::first_chars(body@, 500),
{
    text::prefix(body, 500)
}

/// The contents of an accepted reply.
pub open spec fn accepted_view(r: Result<(u16, String), LlmError>) -> Result<
    (u16, Seq<char>),
    LlmErrorView,
> {
    match r {
        Ok((status, body)) => Ok((status, body@)),
        Err(e) => Err(e@),
    }
}

/// Sorts a reply: the body of a successful one, and the error that any other means.
pub fn accept_reply(reply: HttpReply) -> (r: Result<(u16, String), LlmError>)
    ensures
        accepted_view(r) == accepted(reply@),
        reply matches HttpReply::Answered { status, body: Ok(s) } ==> 200 <= status < 300 ==> (
        r matches Ok((code, whole)) && code == status && whole@ == s@),
{
    match reply {
        HttpReply::Unreachable(reason) => Err(
            LlmError::network(prefixed("Network error: ", reason.as_str())),
        ),
        HttpReply::Answered { status, body } => {
            if status >= 200 && status < 300 {
                match body {
                    Ok(s) => Ok((status, s)),
                    Err(reason) => Err(
                        LlmError::non_retryable(
                            status,
                            prefixed(
                                "Failed to read successful response body: ",
                                reason.as_str(),
                            ),
                        ),
                    ),
                }
            } else {
                let body_text: String = match body {
                    Ok(s) => s,
                    Err(_) => String::new(),
                };
                let snippet: String = response_snippet(body_text.as_str());
                if status >= 400 && status < 500 {
                    Err(
                        LlmError::non_retryable_with_meta(
                            status,
                            status_text("HTTP_", status),
                            status_text("Client error ", status),
                            Some(snippet),
                        ),
                    )
                } else {
                    Err(
                        LlmError::retryable_with_meta(
                            Some(status),
                            status_text("HTTP_", status),
                            status_text("Server error ", status),
                            Some(snippet),
                        ),
                    )
                }
            }
        },
    }
}

/// What a reply comes to: an outcome, or a chat response that is still to be decoded.
pub enum ReplyOutcome {
    Settled(Result<ParsedLlmResponse, LlmError>),
    DecodeChat { status: u16, body_text: String },
}

/// The contents of a [`ReplyOutcome`].
#[verifier::ext_equal]
pub enum ReplyOutcomeView {
    Settled(Result<ParsedView, LlmErrorView>),
    DecodeChat { status: u16, body_text: Seq<char> },
}

impl View for ReplyOutcome {
    type V = ReplyOutcomeView;

    open spec fn view(&self) -> ReplyOutcomeView {
        match *self {
            ReplyOutcome::Settled(r) => ReplyOutcomeView::Settled(types::parsed_view(r)),
            ReplyOutcome::DecodeChat { status, body_text } => ReplyOutcomeView::DecodeChat {
                status,
                body_text: body_text@,
            },
        }
    }
}

/// What a reply comes to with an adapter.
pub open spec fn reply_outcome(adapter: Adapter, reply: HttpReplyView) -> ReplyOutcomeView {
    match accepted(reply) {
        Err(e) => ReplyOutcomeView::Settled(Err(e)),
        Ok((status, body_text)) => match adapter {
            Adapter::OpenAiCompatible(_) => ReplyOutcomeView::DecodeChat { status, body_text },
            Adapter::SimpleTextJson(_) => ReplyOutcomeView::Settled(
                types::text_meaning(json::json_outcome(body_text), body_text, status),
            ),
        },
    }
}

/// The delay before retry number `attempt`: one second, doubled with each retry.
pub open spec fn backoff_ms(attempt: nat) -> int {
    1000 * power2::pow2((attempt - 1) as nat) as int
}

/// The delay before retry number `attempt`.
pub fn retry_backoff_ms(attempt: u32) -> (r: u64)
    requires
        1 <= attempt <= 55,
    ensures
        r == backoff_ms(attempt as nat),
{
    let shift: u64 = (attempt - 1) as u64;
    proof {
        power2::lemma2_to64_rest();
        if shift < 54 {
            power2::lemma_pow2_strictly_increases(shift as nat, 54);
        }
        assert(1 * power2::pow2(shift as nat) <= u64::MAX);
        vstd::bits::lemma_u64_shl_is_mul(1, shift);
    }
    1000 * (1u64 << shift)
}

/// A call: the number of the request that is under way, from zero, and the permit under which the
/// call is made.
#[derive(Debug)]
pub struct LlmCall<P> {
    pub attempt: u32,
    pub permit: P,
}

impl<P> LlmCall<P> {
    /// A call at its first request, which takes its permit with it. No call begins without one.
    pub fn begin(permit: Option<P>) -> (r: Result<LlmCall<P>, AppError>)
        ensures
            match r {
                Ok(call) => permit == Some(call.permit) && call.attempt == 0,
                Err(e) => permit is None && e@ == AppErrorView::TaskFailed(
                    "LLM semaphore closed"@,
                ),
            },
    {
        match permit {
            Some(permit) => Ok(LlmCall { attempt: 0, permit }),
            None => Err(AppError::TaskFailed("LLM semaphore closed".to_owned())),
        }
    }
}

/// What follows the outcome of a request: another one after a delay, under the same permit, or the
/// end of the call, which gives the permit back.
#[derive(Debug)]
pub enum GenerateStep<P> {
    Retry { next: LlmCall<P>, backoff_ms: u64 },
    Done { result: Result<LlmResult, AppError>, permit: P },
}

/// The contents of a [`GenerateStep`].
#[verifier::ext_equal]
pub enum GenerateStepView {
    Retry { attempt: u32, backoff_ms: int },
    Done(Result<LlmResultView, AppErrorView>),
}

/// The contents of what a call returns.
pub open spec fn reply_view(r: Result<LlmResult, AppError>) -> Result<LlmResultView, AppErrorView> {
    match r {
        Ok(v) => Ok(v@),
        Err(e) => Err(e@),
    }
}

impl<P> View for GenerateStep<P> {
    type V = GenerateStepView;

    open spec fn view(&self) -> GenerateStepView {
        match *self {
            GenerateStep::Retry { next, backoff_ms } => GenerateStepView::Retry {
                attempt: next.attempt,
                backoff_ms: backoff_ms as int,
            },
            GenerateStep::Done { result, .. } => GenerateStepView::Done(reply_view(result)),
        }
    }
}

impl<P> GenerateStep<P> {
    /// The permit that goes on with the call, or that is given back.
    pub open spec fn permit(&self) -> P {
        match *self {
            GenerateStep::Retry { next, .. } => next.permit,
            GenerateStep::Done { permit, .. } => permit,
        }
    }
}

/// What a call returns whose request number `attempt` came out as `outcome`.
pub open spec fn call_result(
    ctx: PromptContextView,
    attempt: u32,
    outcome: Result<ParsedView, LlmErrorView>,
    duration_ms: i64,
) -> Result<LlmResultView, AppErrorView> {
    match outcome {
        Ok(parsed) => Ok(
            LlmResultView {
                content: parsed.content,
                metrics: CallMetricsView {
                    prompt_type: ctx.prompt_type,
                    scene_index: ctx.scene_index,
                    storyboard_index: ctx.storyboard_index,
                    duration_ms,
                    token_usage: parsed.token_usage,
                    retries: attempt,
                    error: None,
                },
            },
        ),
        Err(e) => Err(AppErrorView::Llm(error::attempted(e, attempt, duration_ms))),
    }
}

/// Whether an outcome of request number `attempt` ends the call.
pub open spec fn ends_call(
    max_retries: u32,
    attempt: int,
    outcome: Result<ParsedView, LlmErrorView>,
) -> bool {
    match outcome {
        Ok(_) => true,
        Err(e) => !e.retryable || attempt >= max_retries,
    }
}

/// What follows the outcome of request number `attempt`.
pub open spec fn generate_step(
    max_retries: u32,
    ctx: PromptContextView,
    attempt: u32,
    outcome: Result<ParsedView, LlmErrorView>,
    duration_ms: i64,
) -> GenerateStepView {
    if ends_call(max_retries, attempt as int, outcome) {
        GenerateStepView::Done(call_result(ctx, attempt, outcome, duration_ms))
    } else {
        GenerateStepView::Retry {
            attempt: (attempt + 1) as u32,
            backoff_ms: backoff_ms((attempt + 1) as nat),
        }
    }
}

/// The settings of the LLM, with the adapter that they select.
#[derive(Debug, Clone)]
pub struct LlmClient {
    pub config: LlmConfig,
    pub adapter: Adapter,
}

impl LlmClient {
    /// Whether the adapter is the one that the settings select.
    pub open spec fn wf(&self) -> bool {
        adapter_for(self.config.provider@) == Some(self.adapter)
    }

    /// Selects the adapter for the configured provider.
    pub fn new(config: LlmConfig) -> (r: Result<LlmClient, AppError>)
        ensures
            match adapter_for(config.provider@) {
                Some(a) => r matches Ok(c) && c.config == config && c.adapter == a && c.wf(),
                None => r matches Err(AppError::Config(m)) && m@ == unsupported_text(
                    config.provider@,
                ),
            },
    {
        match build_adapter(config.provider.as_str()) {
            Ok(adapter) => Ok(LlmClient { config, adapter }),
            Err(e) => Err(e),
        }
    }

    /// The name of the provider.
    pub fn provider(&self) -> (r: &'static str)
        ensures
            r@ == match self.adapter {
                Adapter::OpenAiCompatible(_) => "openai_compatible"@,
                Adapter::SimpleTextJson(_) => "simple_text_json"@,
            },
            self.wf() ==> r@ == text::ascii_lower(text::trimmed(self.config.provider@)),
    {
        match &self.adapter {
            Adapter::OpenAiCompatible(a) => a.provider(),
            Adapter::SimpleTextJson(a) => a.provider(),
        }
    }

    /// What is sent for a context.
    pub fn build_request(&self, ctx: &PromptContext) -> (r: RequestBody)
        ensures
            r@ == match self.adapter {
                Adapter::OpenAiCompatible(_) => types::chat_request(self.config.model@, ctx@),
                Adapter::SimpleTextJson(_) => types::text_request(self.config.model@, ctx@),
            },
    {
        match &self.adapter {
            Adapter::OpenAiCompatible(a) => a.build_request(&self.config, ctx),
            Adapter::SimpleTextJson(a) => a.build_request(&self.config, ctx),
        }
    }

    /// The value of the `Authorization` header; none where the API key is blank.
    pub fn authorization(&self) -> (r: Option<String>)
        ensures
            text::opt_text(r) == if text::is_blank(self.config.api_key@) {
                None
            } else {
                Some("Bearer "@ + self.config.api_key@)
            },
    {
        if text::blank(self.config.api_key.as_str()) {
            None
        } else {
            Some(prefixed("Bearer ", self.config.api_key.as_str()))
        }
    }

    /// What the reply to one request comes to.
    pub fn do_request(&self, reply: HttpReply) -> (r: ReplyOutcome)
        ensures
            r@ == reply_outcome(self.adapter, reply@),
            reply matches HttpReply::Answered { status, body: Ok(s) } ==> 200 <= status < 300 ==> (
            match self.adapter {
                Adapter::OpenAiCompatible(_) => r matches ReplyOutcome::DecodeChat {
                    status: code,
                    body_text,
                } && code == status && body_text@ == s@,
                Adapter::SimpleTextJson(_) => r matches ReplyOutcome::Settled(outcome)
                    && types::parsed_view(outcome) == types::text_meaning(
                    json::json_outcome(s@),
                    s@,
                    status,
                ),
            }),
    {
        match accept_reply(reply) {
            Err(e) => ReplyOutcome::Settled(Err(e)),
            Ok((status, body_text)) => match &self.adapter {
                Adapter::OpenAiCompatible(_) => ReplyOutcome::DecodeChat { status, body_text },
                Adapter::SimpleTextJson(a) => ReplyOutcome::Settled(
                    a.parse_body(body_text.as_str(), status),
                ),
            },
        }
    }

    /// What a chat response comes to, given what its body decoded to.
    pub fn finish_chat(
        &self,
        status: u16,
        body_text: &str,
        decoded: Result<LlmResponse, String>,
    ) -> (r: Result<ParsedLlmResponse, LlmError>)
        ensures
            types::parsed_view(r) == types::chat_meaning(decoded, body_text@, status),
    {
        OpenAiCompatibleAdapter.parse_response(body_text, status, decoded)
    }

    /// What follows the outcome of the request under way, `duration_ms` after the call began:
    /// the end of the call, or a retry after a delay. An error that a retry cannot mend is not
    /// retried, nor is any error once `max_retries` retries were made. The call keeps its permit
    /// until it ends, well or not.
    pub fn generate<P>(
        &self,
        ctx: &PromptContext,
        call: LlmCall<P>,
        outcome: Result<ParsedLlmResponse, LlmError>,
        duration_ms: i64,
    ) -> (r: GenerateStep<P>)
        requires
            call.attempt < self.config.max_retries ==> call.attempt < 55,
        ensures
            r@ == generate_step(
                self.config.max_retries,
                ctx@,
                call.attempt,
                types::parsed_view(outcome),
                duration_ms,
            ),
            r.permit() == call.permit,
    {
        match outcome {
            Ok(response) => {
                let metrics = CallMetrics {
                    prompt_type: ctx.prompt_type,
                    scene_index: ctx.scene_index,
                    storyboard_index: ctx.storyboard_index,
                    duration_ms,
                    token_usage: response.token_usage,
                    retries: call.attempt,
                    error: None,
                };
                GenerateStep::Done {
                    result: Ok(LlmResult { content: response.content, metrics }),
                    permit: call.permit,
                }
            },
            Err(e) => {
                if !e.retryable || call.attempt >= self.config.max_retries {
                    GenerateStep::Done {
                        result: Err(
                            AppError::Llm(e.with_attempt_meta(call.attempt, duration_ms)),
                        ),
                        permit: call.permit,
                    }
                } else {
                    let attempt: u32 = call.attempt + 1;
                    GenerateStep::Retry {
                        next: LlmCall { attempt, permit: call.permit },
                        backoff_ms: retry_backoff_ms(attempt),
                    }
                }
            },
        }
    }
}

/// The run of a call from request number `attempt` on, over the outcomes of its requests with
/// the time of each: what the call returns, and nothing where it still goes on after them.
pub open spec fn generate_run(
    max_retries: u32,
    ctx: PromptContextView,
    attempt: u32,
    outcomes: Seq<(Result<ParsedView, LlmErrorView>, i64)>,
) -> Option<Result<LlmResultView, AppErrorView>>
    decreases outcomes.len(),
{
    if outcomes.len() == 0 {
        None
    } else {
        match generate_step(max_retries, ctx, attempt, outcomes[0].0, outcomes[0].1) {
            GenerateStepView::Done(r) => Some(r),
            GenerateStepView::Retry { attempt: next, .. } => generate_run(
                max_retries,
                ctx,
                next,
                outcomes.drop_first(),
            ),
        }
    }
}

proof fn run_reaches(
    max_retries: u32,
    ctx: PromptContextView,
    attempt: u32,
    outcomes: Seq<(Result<ParsedView, LlmErrorView>, i64)>,
    k: int,
)
    requires
        0 <= k <= outcomes.len(),
        attempt + k <= max_retries,
        forall|i: int|
            0 <= i < k ==> !ends_call(max_retries, attempt + i, (#[trigger] outcomes[i]).0),
    ensures
        generate_run(max_retries, ctx, attempt, outcomes) == generate_run(
            max_retries,
            ctx,
            (attempt + k) as u32,
            outcomes.skip(k),
        ),
    decreases k,
{
    if k == 0 {
        assert(outcomes.skip(0) =~= outcomes);
    } else {
        let rest = outcomes.drop_first();
        assert(!ends_call(max_retries, attempt as int, outcomes[0].0));
        assert forall|i: int| 0 <= i < k - 1 implies !ends_call(
            max_retries,
            attempt + 1 + i,
            (#[trigger] rest[i]).0,
        ) by {
            assert(rest[i] == outcomes[i + 1]);
        }
        run_reaches(max_retries, ctx, (attempt + 1) as u32, rest, k - 1);
        assert(rest.skip(k - 1) =~= outcomes.skip(k));
    }
}

/// A call ends with the first request that succeeds, that fails for good, or that is the last
/// one allowed, and returns what came of that request. It reports as many retries as it made.
pub proof fn call_ends_with_first_decisive_request(
    max_retries: u32,
    ctx: PromptContextView,
    outcomes: Seq<(Result<ParsedView, LlmErrorView>, i64)>,
    k: u32,
)
    requires
        k < outcomes.len(),
        ends_call(max_retries, k as int, outcomes[k as int].0),
        forall|i: int| 0 <= i < k ==> !ends_call(max_retries, i, (#[trigger] outcomes[i]).0),
    ensures
        generate_run(max_retries, ctx, 0, outcomes) == Some(
            call_result(ctx, k, outcomes[k as int].0, outcomes[k as int].1),
        ),
        k <= max_retries,
{
    if k > 0 {
        assert(!ends_call(max_retries, k - 1, outcomes[k - 1].0));
    }
    run_reaches(max_retries, ctx, 0, outcomes, k as int);
    assert(outcomes.skip(k as int)[0] == outcomes[k as int]);
}

/// A call makes at most `max_retries + 1` requests: after that many outcomes it has ended,
/// whatever they were.
pub proof fn requests_are_bounded(
    max_retries: u32,
    ctx: PromptContextView,
    attempt: u32,
    outcomes: Seq<(Result<ParsedView, LlmErrorView>, i64)>,
)
    requires
        outcomes.len() > max_retries - attempt,
        outcomes.len() > 0,
    ensures
        generate_run(max_retries, ctx, attempt, outcomes) is Some,
    decreases outcomes.len(),
{
    if !ends_call(max_retries, attempt as int, outcomes[0].0) {
        requests_are_bounded(max_retries, ctx, (attempt + 1) as u32, outcomes.drop_first());
    }
}

/// A call that has not ended yet goes on: as long as every outcome is an error that a retry may
/// mend and retries are left, nothing is returned.
pub proof fn call_goes_on_while_retries_are_left(
    max_retries: u32,
    ctx: PromptContextView,
    outcomes: Seq<(Result<ParsedView, LlmErrorView>, i64)>,
)
    requires
        outcomes.len() <= max_retries,
        forall|i: int|
            0 <= i < outcomes.len() ==> ((#[trigger] outcomes[i]).0 matches Err(e) && e.retryable),
    ensures
        generate_run(max_retries, ctx, 0, outcomes) is None,
{
    run_reaches(max_retries, ctx, 0, outcomes, outcomes.len() as int);
}

/// A client error ends the call at once, whatever the number of retries allowed.
pub proof fn client_errors_are_not_retried(
    max_retries: u32,
    attempt: int,
    status: u16,
    body: Result<Seq<char>, Seq<char>>,
)
    requires
        400 <= status < 500,
    ensures
        accepted(HttpReplyView::Answered { status, body }) matches Err(e) && !e.retryable
            && ends_call(max_retries, attempt, Err(e)),
{
}

/// A server error and a failure to get any reply are retried as long as retries are left.
pub proof fn server_and_network_errors_are_retried(
    max_retries: u32,
    attempt: int,
    reply: HttpReplyView,
)
    requires
        attempt < max_retries,
        match reply {
            HttpReplyView::Unreachable(_) => true,
            HttpReplyView::Answered { status, .. } => 500 <= status,
        },
    ensures
        accepted(reply) matches Err(e) && e.retryable && !ends_call(max_retries, attempt, Err(e)),
{
}

/// The time that a call has waited in all before retry number `retries`, that wait included.
pub open spec fn total_backoff_ms(retries: nat) -> int
    decreases retries,
{
    if retries == 0 {
        0
    } else {
        total_backoff_ms((retries - 1) as nat) + backoff_ms(retries)
    }
}

/// Each delay is twice the one before, from one second on, so that `n` retries wait for
/// `2^n - 1` seconds in all.
pub proof fn backoff_doubles(n: nat)
    ensures
        backoff_ms(1) == 1000,
        n >= 1 ==> backoff_ms(n + 1) == 2 * backoff_ms(n),
        total_backoff_ms(n) == 1000 * (power2::pow2(n) - 1),
    decreases n,
{
    power2::lemma2_to64();
    if n >= 1 {
        backoff_doubles((n - 1) as nat);
        power2::lemma_pow2_unfold(n);
    }
}

/// Calls that share permits.
#[verifier::ext_equal]
pub struct LlmPool {
    /// The permits that no call holds.
    pub free: nat,
    /// The calls under way, each with the number of its request. Each holds one permit.
    pub calls: Map<int, u32>,
}

/// What happens to calls that share permits.
pub enum PoolEvent {
    /// A call is given a permit, and begins.
    Granted { id: int },
    /// A call is refused, because no permits are given any more.
    Refused { id: int },
    /// The request of a call came out.
    Answered { id: int, outcome: Result<ParsedView, LlmErrorView> },
}

/// Calls that share `permits` permits, before the first of them.
pub open spec fn pool_start(permits: nat) -> LlmPool {
    LlmPool { free: permits, calls: Map::empty() }
}

/// Whether an event can happen: a permit can be given that is free, and requests are made by calls
/// under way only.
pub open spec fn pool_expects(p: LlmPool, e: PoolEvent) -> bool {
    match e {
        PoolEvent::Granted { id } => p.free > 0 && !p.calls.contains_key(id),
        PoolEvent::Refused { id } => !p.calls.contains_key(id),
        PoolEvent::Answered { id, .. } => p.calls.contains_key(id),
    }
}

/// Whether an event ends a call that is under way.
pub open spec fn ends_in_pool(max_retries: u32, p: LlmPool, e: PoolEvent, id: int) -> bool {
    match e {
        PoolEvent::Answered { id: answered, outcome } => answered == id && ends_call(
            max_retries,
            p.calls[id] as int,
            outcome,
        ),
        _ => false,
    }
}

/// Calls that share permits, after an event.
pub open spec fn pool_step(max_retries: u32, p: LlmPool, e: PoolEvent) -> LlmPool {
    match e {
        PoolEvent::Granted { id } => LlmPool {
            free: (p.free - 1) as nat,
            calls: p.calls.insert(id, 0),
        },
        PoolEvent::Refused { .. } => p,
        PoolEvent::Answered { id, .. } => if ends_in_pool(max_retries, p, e, id) {
            LlmPool { free: p.free + 1, calls: p.calls.remove(id) }
        } else {
            LlmPool { calls: p.calls.insert(id, (p.calls[id] + 1) as u32), ..p }
        },
    }
}

/// Calls that share permits, after events; none where one cannot have happened.
pub open spec fn pool_run(max_retries: u32, p: LlmPool, events: Seq<PoolEvent>) -> Option<LlmPool>
    decreases events.len(),
{
    if events.len() == 0 {
        Some(p)
    } else if !pool_expects(p, events[0]) {
        None
    } else {
        pool_run(max_retries, pool_step(max_retries, p, events[0]), events.drop_first())
    }
}

proof fn pool_keeps_permits(max_retries: u32, p: LlmPool, events: Seq<PoolEvent>)
    requires
        p.calls.dom().finite(),
        pool_run(max_retries, p, events) is Some,
    ensures
        ({
            let end = pool_run(max_retries, p, events)->0;
            &&& end.calls.dom().finite()
            &&& end.free + end.calls.dom().len() == p.free + p.calls.dom().len()
        }),
    decreases events.len(),
{
    if events.len() > 0 {
        let next = pool_step(max_retries, p, events[0]);
        if let PoolEvent::Answered { id, .. } = events[0] {
            assert(p.calls.dom().insert(id) =~= p.calls.dom());
        }
        pool_keeps_permits(max_retries, next, events.drop_first());
    }
}

/// Calls that share `permits` permits: no permit is lost, whatever the outcomes, and so never more
/// than `permits` calls are under way at once.
pub proof fn calls_under_way_are_bounded(
    permits: nat,
    max_retries: u32,
    events: Seq<PoolEvent>,
)
    requires
        pool_run(max_retries, pool_start(permits), events) is Some,
    ensures
        ({
            let end = pool_run(max_retries, pool_start(permits), events)->0;
            &&& end.free + end.calls.dom().len() == permits
            &&& end.calls.dom().len() <= permits
        }),
{
    pool_keeps_permits(max_retries, pool_start(permits), events);
}

/// A call holds its permit from before its first request until an outcome ends it: no other event
/// takes it out of those under way, delays between requests included, and what ends it gives the
/// permit back.
pub proof fn call_holds_its_permit_until_it_ends(
    max_retries: u32,
    p: LlmPool,
    e: PoolEvent,
    id: int,
)
    requires
        pool_expects(p, e),
        p.calls.contains_key(id),
    ensures
        pool_step(max_retries, p, e).calls.contains_key(id) <==> !ends_in_pool(
            max_retries,
            p,
            e,
            id,
        ),
        ends_in_pool(max_retries, p, e, id) ==> pool_step(max_retries, p, e).free == p.free + 1,
{
}

/// The calls of a pool go on and end as [`LlmClient::generate`] says: a call stays, at its next
/// request, exactly where that retries, and leaves where that is done.
pub proof fn pool_calls_follow_generate(
    max_retries: u32,
    p: LlmPool,
    id: int,
    ctx: PromptContextView,
    outcome: Result<ParsedView, LlmErrorView>,
    duration_ms: i64,
)
    requires
        p.calls.contains_key(id),
    ensures
        ({
            let after = pool_step(max_retries, p, PoolEvent::Answered { id, outcome });
            match generate_step(max_retries, ctx, p.calls[id], outcome, duration_ms) {
                GenerateStepView::Retry { attempt, .. } => after.calls.contains_key(id)
                    && after.calls[id] == attempt,
                GenerateStepView::Done(_) => !after.calls.contains_key(id),
            }
        }),
{
}

/// The body of a successful reply is passed on as it came, in full.
pub proof fn successful_bodies_are_passed_on(status: u16, s: Seq<char>)
    requires
        200 <= status < 300,
    ensures
        accepted(HttpReplyView::Answered { status, body: Ok(s) }) == Ok::<
            (u16, Seq<char>),
            LlmErrorView,
        >((status, s)),
{
}

/// What is told of a reply that is no success: that none came, and why; that its body could not be
/// read, and why; and otherwise its status, with the beginning of its body.
pub proof fn rejected_replies_say_why(
    reason: Seq<char>,
    status: u16,
    body: Result<Seq<char>, Seq<char>>,
)
    ensures
        accepted(HttpReplyView::Unreachable(reason)) matches Err(e) && {
            &&& e.retryable
            &&& e.status_code is None
            &&& e.error_code == Some("NETWORK_ERROR"@)
            &&& e.message == "Network error: "@ + reason
            &&& e.response_snippet is None
            &&& e.retries is None && e.duration_ms is None
        },
        200 <= status < 300 && body is Err ==> (accepted(
            HttpReplyView::Answered { status, body },
        ) matches Err(e) && {
            &&& !e.retryable
            &&& e.status_code == Some(status)
            &&& e.error_code == Some("HTTP_"@ + text::decimal(status as nat))
            &&& e.message == "Failed to read successful response body: "@ + body->Err_0
            &&& e.response_snippet is None
            &&& e.retries is None && e.duration_ms is None
        }),
        !(200 <= status < 300) ==> (accepted(HttpReplyView::Answered { status, body }) matches Err(
            e,
        ) && {
            &&& e.retryable == !(400 <= status < 500)
            &&& e.status_code == Some(status)
            &&& e.error_code == Some("HTTP_"@ + text::decimal(status as nat))
            &&& 400 <= status < 500 ==> e.message == "Client error "@ + text::decimal(
                status as nat,
            )
            &&& !(400 <= status < 500) ==> e.message == "Server error "@ + text::decimal(
                status as nat,
            )
            &&& body matches Ok(s) ==> e.response_snippet == Some(text::first_chars(s, 500))
            &&& body is Err ==> (e.response_snippet matches Some(s) && s.len() == 0)
            &&& e.retries is None && e.duration_ms is None
        }),
{
}

/// A successful reply is read whole: by a plain-text provider at once, as the document that its body
/// is, and by a chat provider once its body is decoded, which is handed on as it came.
pub proof fn successful_replies_are_read_whole(status: u16, s: Seq<char>)
    requires
        200 <= status < 300,
    ensures
        reply_outcome(
            Adapter::SimpleTextJson(SimpleTextJsonAdapter),
            HttpReplyView::Answered { status, body: Ok(s) },
        ) == ReplyOutcomeView::Settled(types::text_meaning(json::json_outcome(s), s, status)),
        reply_outcome(
            Adapter::OpenAiCompatible(OpenAiCompatibleAdapter),
            HttpReplyView::Answered { status, body: Ok(s) },
        ) == (ReplyOutcomeView::DecodeChat { status, body_text: s }),
{
}

/// A reply that is no success comes to its error, whatever the provider.
pub proof fn rejected_replies_come_to_their_error(adapter: Adapter, reply: HttpReplyView)
    ensures
        accepted(reply) matches Err(e) ==> reply_outcome(adapter, reply)
            == ReplyOutcomeView::Settled(Err(e)),
{
}

/// The provider's name decides on the adapter, but for white space around it and the case of its
/// letters; a name of no provider decides on none.
pub proof fn names_decide_on_adapters(provider: Seq<char>)
    ensures
        ({
            let name = text::ascii_lower(text::trimmed(provider));
            &&& name == "openai_compatible"@ ==> adapter_for(provider) == Some(
                Adapter::OpenAiCompatible(OpenAiCompatibleAdapter),
            )
            &&& name == "simple_text_json"@ ==> adapter_for(provider) == Some(
                Adapter::SimpleTextJson(SimpleTextJsonAdapter),
            )
            &&& name != "openai_compatible"@ && name != "simple_text_json"@ ==> adapter_for(
                provider,
            ) is None
        }),
        unsupported_text(provider) == "Unsupported llm.provider `"@ + provider
            + "`. Supported values: "@ + ("openai_compatible"@ + ", "@ + "simple_text_json"@),
{
    reveal_strlit("openai_compatible");
    reveal_strlit("simple_text_json");
    assert("openai_compatible"@.len() != "simple_text_json"@.len());
    let names = seq!["openai_compatible"@, "simple_text_json"@];
    assert(names.drop_last() =~= seq!["openai_compatible"@]);
    assert(text::joined(names.drop_last(), ", "@) == "openai_compatible"@);
}

/// What a call returns is what came of its last request: the whole content with what was measured,
/// or its error; either way with the number of retries and the time that the call took.
pub proof fn calls_return_their_last_outcome(
    ctx: PromptContextView,
    attempt: u32,
    outcome: Result<ParsedView, LlmErrorView>,
    duration_ms: i64,
)
    ensures
        match outcome {
            Ok(p) => call_result(ctx, attempt, outcome, duration_ms) matches Ok(r) && {
                &&& r.content == p.content
                &&& r.metrics.token_usage == p.token_usage
                &&& r.metrics.prompt_type == ctx.prompt_type
                &&& r.metrics.scene_index == ctx.scene_index
                &&& r.metrics.storyboard_index == ctx.storyboard_index
                &&& r.metrics.duration_ms == duration_ms
                &&& r.metrics.retries == attempt
                &&& r.metrics.error is None
            },
            Err(e) => call_result(ctx, attempt, outcome, duration_ms) matches Err(
                AppErrorView::Llm(l),
            ) && {
                &&& l.retries == Some(attempt)
                &&& l.duration_ms == Some(duration_ms)
                &&& l.message == e.message
                &&& l.status_code == e.status_code
                &&& l.retryable == e.retryable
                &&& l.error_code == e.error_code
                &&& l.response_snippet == e.response_snippet
            },
        },
{
}

/// A call goes on exactly where its request failed in a way that a retry may mend and a retry is
/// left: with the next request, after its delay. Otherwise it is done.
pub proof fn calls_go_on_exactly_where_a_retry_may_help(
    max_retries: u32,
    ctx: PromptContextView,
    attempt: u32,
    outcome: Result<ParsedView, LlmErrorView>,
    duration_ms: i64,
)
    ensures
        ({
            let step = generate_step(max_retries, ctx, attempt, outcome, duration_ms);
            let may_help = attempt < max_retries && (outcome matches Err(e) && e.retryable);
            &&& may_help ==> (step matches GenerateStepView::Retry { attempt: next, backoff_ms: ms }
                && next == attempt + 1 && ms == backoff_ms((attempt + 1) as nat))
            &&& !may_help ==> step == GenerateStepView::Done(
                call_result(ctx, attempt, outcome, duration_ms),
            )
            &&& ends_call(max_retries, attempt as int, outcome) <==> !may_help
        }),
{
}

/// The contents of a reply are its status and its body, or why there is none.
pub proof fn reply_contents(reply: HttpReply)
    ensures
        reply matches HttpReply::Unreachable(s) ==> reply@ == HttpReplyView::Unreachable(s@),
        reply matches HttpReply::Answered { status, body: Ok(s) } ==> reply@
            == (HttpReplyView::Answered { status, body: Ok(s@) }),
        reply matches HttpReply::Answered { status, body: Err(s) } ==> reply@
            == (HttpReplyView::Answered { status, body: Err(s@) }),
{
}

/// The contents of what a reply comes to are its outcome, or what is to be decoded.
pub proof fn outcome_contents(o: ReplyOutcome)
    ensures
        o matches ReplyOutcome::Settled(Ok(p)) ==> o@ == ReplyOutcomeView::Settled(Ok(p@)),
        o matches ReplyOutcome::Settled(Err(e)) ==> o@ == ReplyOutcomeView::Settled(Err(e@)),
        o matches ReplyOutcome::DecodeChat { status, body_text } ==> o@
            == (ReplyOutcomeView::DecodeChat { status, body_text: body_text@ }),
{
}

/// The contents of what a call returned are those of its result, or of its error.
pub proof fn returned_contents(r: Result<LlmResult, AppError>)
    ensures
        r matches Ok(v) ==> reply_view(r) == Ok::<LlmResultView, AppErrorView>(v@),
        r matches Err(e) ==> reply_view(r) == Err::<LlmResultView, AppErrorView>(e@),
{
}

/// The contents of a step of a call are the next request and its delay, or what the call returned.
pub proof fn step_contents<P>(s: GenerateStep<P>)
    ensures
        s matches GenerateStep::Retry { next, backoff_ms } ==> s@ == (GenerateStepView::Retry {
            attempt: next.attempt,
            backoff_ms: backoff_ms as int,
        }),
        s matches GenerateStep::Done { result, .. } ==> s@ == GenerateStepView::Done(
            reply_view(result),
        ),
{
}

/// A client that keeps its rules has the adapter of the name that its settings give.
pub proof fn clients_have_the_adapter_of_their_name(c: LlmClient)
    requires
        c.wf(),
    ensures
        c.adapter is OpenAiCompatible || c.adapter is SimpleTextJson,
        adapter_for(c.config.provider@) == Some(c.adapter),
{
}

/// The contents of an accepted reply are its status and its body, in full.
pub proof fn accepted_contents(r: Result<(u16, String), LlmError>)
    ensures
        r matches Ok((status, body)) ==> accepted_view(r) == Ok::<(u16, Seq<char>), LlmErrorView>(
            (status, body@),
        ),
        r matches Err(e) ==> accepted_view(r) == Err::<(u16, Seq<char>), LlmErrorView>(e@),
{
}

/// The permit of a step is the one that the call goes on with, or that it gives back.
pub proof fn steps_keep_one_permit<P>(s: GenerateStep<P>)
    ensures
        s matches GenerateStep::Retry { next, .. } ==> s.permit() == next.permit,
        s matches GenerateStep::Done { permit, .. } ==> s.permit() == permit,
{
}

} // verus!
