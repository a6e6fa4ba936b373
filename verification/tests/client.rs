use media_prompt::config::LlmConfig;
use media_prompt::error::{AppError, LlmError};
use media_prompt::llm::client::{
    accept_reply, response_snippet, retry_backoff_ms, GenerateStep, HttpReply, LlmCall, LlmClient,
    ReplyOutcome,
};
use media_prompt::llm::types::{
    Choice, LlmResponse, ParsedLlmResponse, PromptContext, RequestBody, ResponseMessage,
};
use media_prompt::model::prompt::PromptType;

fn client(provider: &str, api_key: &str, max_retries: u32) -> LlmClient {
    LlmClient::new(LlmConfig {
        provider: provider.to_string(),
        base_url: "http://llm".to_string(),
        model: "m".to_string(),
        api_key: api_key.to_string(),
        allow_empty_api_key: true,
        timeout_secs: 1,
        max_retries,
    })
    .unwrap()
}

fn context() -> PromptContext {
    PromptContext {
        prompt_type: PromptType::SoundEffect,
        scene_index: 4,
        storyboard_index: Some(5),
        scene_description: String::new(),
        storyboard_content: None,
        video_prompt: None,
        multi_view_prompt: None,
        previous_prompts: Vec::new(),
    }
}

fn answered(status: u16, body: &str) -> HttpReply {
    HttpReply::Answered { status, body: Ok(body.to_string()) }
}

fn rejected(reply: HttpReply) -> LlmError {
    accept_reply(reply).unwrap_err()
}

#[test]
fn unknown_providers_make_no_client() {
    let r = LlmClient::new(LlmConfig {
        provider: "p".to_string(),
        base_url: "u".to_string(),
        model: "m".to_string(),
        api_key: String::new(),
        allow_empty_api_key: true,
        timeout_secs: 1,
        max_retries: 0,
    });
    assert!(matches!(r, Err(AppError::Config(_))));
    assert_eq!(client("SIMPLE_TEXT_JSON", "", 0).provider(), "simple_text_json");
    assert_eq!(client("openai_compatible", "", 0).provider(), "openai_compatible");
    assert_eq!(client(" OpenAI_Compatible ", "", 0).provider(), "openai_compatible");
}

#[test]
fn requests_follow_the_provider() {
    let chat = client("openai_compatible", "", 0).build_request(&context());
    assert!(matches!(chat, RequestBody::Chat(_)));
    let text = client("simple_text_json", "", 0).build_request(&context());
    assert!(matches!(text, RequestBody::Text(_)));
}

#[test]
fn blank_keys_are_not_sent() {
    assert_eq!(client("openai_compatible", " \t", 0).authorization(), None);
    assert_eq!(
        client("openai_compatible", " k ", 0).authorization().as_deref(),
        Some("Bearer  k ")
    );
}

#[test]
fn replies_are_sorted() {
    let e = rejected(HttpReply::Unreachable("refused".to_string()));
    assert!(e.retryable);
    assert_eq!(e.message, "Network error: refused");
    assert_eq!(e.error_code(), Some("NETWORK_ERROR"));

    assert_eq!(accept_reply(answered(200, "b")).unwrap(), (200, "b".to_string()));
    assert_eq!(accept_reply(answered(299, "")).unwrap(), (299, String::new()));

    let e = rejected(HttpReply::Answered { status: 200, body: Err("cut".to_string()) });
    assert!(!e.retryable);
    assert_eq!(e.message, "Failed to read successful response body: cut");
    assert_eq!(e.error_code(), Some("HTTP_200"));

    for status in [400u16, 429, 499] {
        let e = rejected(answered(status, "why"));
        assert!(!e.retryable);
        assert_eq!(e.status_code, Some(status));
        assert_eq!(e.error_code().unwrap(), format!("HTTP_{status}"));
        assert_eq!(e.message, format!("Client error {status}"));
        assert_eq!(e.response_snippet(), Some("why"));
    }
    for status in [500u16, 503, 302, 199] {
        let e = rejected(answered(status, "why"));
        assert!(e.retryable);
        assert_eq!(e.status_code, Some(status));
        assert_eq!(e.message, format!("Server error {status}"));
    }
    let e = rejected(HttpReply::Answered { status: 500, body: Err("cut".to_string()) });
    assert_eq!(e.response_snippet(), Some(""));
}

#[test]
fn error_bodies_are_cut() {
    assert_eq!(response_snippet(&"错".repeat(501)), "错".repeat(500));
    let e = rejected(answered(404, &"x".repeat(900)));
    assert_eq!(e.response_snippet().unwrap().len(), 500);
}

#[test]
fn text_replies_are_settled_at_once() {
    let c = client("simple_text_json", "", 0);
    match c.do_request(answered(200, "{\"text\":\"t\",\"total_tokens\":2}")) {
        ReplyOutcome::Settled(Ok(r)) => {
            assert_eq!((r.content.as_str(), r.token_usage), ("t", Some(2)))
        }
        _ => panic!("not settled"),
    }
    assert!(matches!(c.do_request(answered(200, "{")), ReplyOutcome::Settled(Err(_))));
    assert!(matches!(c.do_request(answered(500, "")), ReplyOutcome::Settled(Err(_))));
}

#[test]
fn chat_replies_are_decoded_first() {
    let c = client("openai_compatible", "", 0);
    match c.do_request(answered(201, "body")) {
        ReplyOutcome::DecodeChat { status, body_text } => {
            assert_eq!((status, body_text.as_str()), (201, "body"))
        }
        ReplyOutcome::Settled(_) => panic!("settled"),
    }
    assert!(matches!(c.do_request(answered(400, "")), ReplyOutcome::Settled(Err(_))));
    let decoded = LlmResponse {
        choices: vec![Choice { message: ResponseMessage { content: "c".to_string() } }],
        usage: None,
    };
    assert_eq!(c.finish_chat(200, "body", Ok(decoded)).unwrap().content, "c");
    let e = c.finish_chat(200, "body", Err("bad".to_string())).unwrap_err();
    assert_eq!(e.message, "Response parse error: bad");
}

#[test]
fn calls_begin_with_a_permit() {
    let call = LlmCall::begin(Some("permit")).unwrap();
    assert_eq!((call.attempt, call.permit), (0, "permit"));
    match LlmCall::<u8>::begin(None) {
        Err(e) => assert_eq!(e.message(), "Task failed: LLM semaphore closed"),
        Ok(_) => panic!("began"),
    }
}

#[test]
fn retry_delays_double() {
    assert_eq!(retry_backoff_ms(1), 1_000);
    assert_eq!(retry_backoff_ms(2), 2_000);
    assert_eq!(retry_backoff_ms(3), 4_000);
    assert_eq!(retry_backoff_ms(10), 512_000);
    assert_eq!(retry_backoff_ms(55), 1000 * (1u64 << 54));
}

#[test]
fn success_ends_a_call() {
    let c = client("openai_compatible", "", 3);
    let outcome = Ok(ParsedLlmResponse { content: "x".to_string(), token_usage: Some(9) });
    match c.generate(&context(), LlmCall { attempt: 2, permit: 7 }, outcome, 50) {
        GenerateStep::Done { result: Ok(r), permit } => {
            assert_eq!(permit, 7);
            assert_eq!(r.content, "x");
            assert_eq!(r.metrics.prompt_type, PromptType::SoundEffect);
            assert_eq!((r.metrics.scene_index, r.metrics.storyboard_index), (4, Some(5)));
            assert_eq!((r.metrics.duration_ms, r.metrics.retries), (50, 2));
            assert_eq!(r.metrics.token_usage, Some(9));
            assert_eq!(r.metrics.error, None);
        }
        _ => panic!("not done"),
    }
}

#[test]
fn client_errors_end_a_call() {
    let c = client("openai_compatible", "", 3);
    let outcome = Err(rejected(answered(400, "b")));
    match c.generate(&context(), LlmCall { attempt: 0, permit: 7 }, outcome, 11) {
        GenerateStep::Done { result: Err(AppError::Llm(e)), permit } => {
            assert_eq!(permit, 7);
            assert_eq!((e.retries(), e.duration_ms()), (Some(0), Some(11)));
            assert_eq!(e.message, "Client error 400");
        }
        _ => panic!("not done"),
    }
}

#[test]
fn server_errors_are_retried_until_retries_run_out() {
    let c = client("openai_compatible", "", 3);
    let mut call = LlmCall::begin(Some(7)).unwrap();
    let mut delays: Vec<u64> = Vec::new();
    loop {
        let outcome = Err(rejected(answered(503, "busy")));
        match c.generate(&context(), call, outcome, 100) {
            GenerateStep::Retry { next, backoff_ms } => {
                assert_eq!(next.permit, 7);
                delays.push(backoff_ms);
                call = next;
            }
            GenerateStep::Done { result: Err(AppError::Llm(e)), permit } => {
                assert_eq!(permit, 7);
                assert_eq!(e.retries(), Some(3));
                assert_eq!(e.message, "Server error 503");
                break;
            }
            GenerateStep::Done { .. } => panic!("no LLM error"),
        }
    }
    assert_eq!(delays, vec![1_000, 2_000, 4_000]);
}

#[test]
fn no_retries_means_one_request() {
    let c = client("openai_compatible", "", 0);
    let outcome = Err(rejected(HttpReply::Unreachable("x".to_string())));
    assert!(matches!(
        c.generate(&context(), LlmCall { attempt: 0, permit: 7 }, outcome, 1),
        GenerateStep::Done { result: Err(_), permit: 7 }
    ));
}

#[test]
fn shared_permits_bound_the_calls() {
    let c = client("openai_compatible", "", 1);
    let mut free = vec!["a", "b"];
    let first = LlmCall::begin(free.pop()).unwrap();
    let second = LlmCall::begin(free.pop()).unwrap();
    assert!(LlmCall::begin(free.pop()).is_err());
    let busy = || Err(rejected(answered(503, "")));
    let first = match c.generate(&context(), first, busy(), 1) {
        GenerateStep::Retry { next, .. } => next,
        GenerateStep::Done { .. } => panic!("not retried"),
    };
    for call in [first, second] {
        let outcome = if call.attempt == 1 { busy() } else { Err(rejected(answered(400, ""))) };
        match c.generate(&context(), call, outcome, 1) {
            GenerateStep::Done { result, permit } => {
                assert!(result.is_err());
                free.push(permit);
            }
            GenerateStep::Retry { .. } => panic!("retried"),
        }
    }
    free.sort();
    assert_eq!(free, vec!["a", "b"]);
}
