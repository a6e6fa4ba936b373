use media_prompt::config::LlmConfig;
use media_prompt::error::{AppError, LlmError};
use media_prompt::llm::client::{build_adapter, Adapter};
use media_prompt::llm::json::{find_count, find_text, narrow_count};
use media_prompt::llm::types::{
    body_snippet, extract_first_text, extract_token_usage, first_present_count, first_usable_text,
    settle_found, supported_llm_providers, Choice, LlmAdapter, LlmResponse,
    OpenAiCompatibleAdapter, ParsedLlmResponse, PromptContext, RequestBody, ResponseMessage,
    SimpleTextJsonAdapter, Usage,
};
use media_prompt::model::prompt::PromptType;

fn config() -> LlmConfig {
    LlmConfig {
        provider: "openai_compatible".to_string(),
        base_url: "http://llm".to_string(),
        model: "model-x".to_string(),
        api_key: "k".to_string(),
        allow_empty_api_key: false,
        timeout_secs: 1,
        max_retries: 3,
    }
}

fn context() -> PromptContext {
    PromptContext {
        prompt_type: PromptType::VideoPrompt,
        scene_index: 1,
        storyboard_index: None,
        scene_description: "雨夜".to_string(),
        storyboard_content: None,
        video_prompt: None,
        multi_view_prompt: None,
        previous_prompts: Vec::new(),
    }
}

fn simple(body: &str) -> Result<ParsedLlmResponse, LlmError> {
    SimpleTextJsonAdapter.parse_body(body, 200)
}

fn content(body: &str) -> String {
    simple(body).unwrap().content
}

fn value(body: &str) -> serde_json::Value {
    serde_json::from_str(body).unwrap()
}

#[test]
fn providers() {
    assert_eq!(supported_llm_providers(), &["openai_compatible", "simple_text_json"]);
    assert_eq!(OpenAiCompatibleAdapter.provider(), "openai_compatible");
    assert_eq!(SimpleTextJsonAdapter.provider(), "simple_text_json");
}

#[test]
fn adapters_are_selected_by_name() {
    assert!(matches!(build_adapter(" OpenAI_Compatible\n"), Ok(Adapter::OpenAiCompatible(_))));
    assert!(matches!(build_adapter("simple_text_json"), Ok(Adapter::SimpleTextJson(_))));
    match build_adapter(" Other ") {
        Err(AppError::Config(m)) => assert_eq!(
            m,
            "Unsupported llm.provider ` Other `. Supported values: openai_compatible, simple_text_json"
        ),
        _ => panic!("accepted"),
    }
}

#[test]
fn chat_requests() {
    match OpenAiCompatibleAdapter.build_request(&config(), &context()) {
        RequestBody::Chat(r) => {
            assert_eq!(r.model, "model-x");
            assert_eq!(r.messages.len(), 2);
            assert_eq!(r.messages[0].role, "system");
            assert_eq!(r.messages[0].content, context().build_system_prompt());
            assert_eq!(r.messages[1].role, "user");
            assert_eq!(r.messages[1].content, "请生成 video_prompt 提示词。");
            assert_eq!(r.temperature_tenths, 7);
            assert_eq!(r.max_tokens, Some(2000));
        }
        RequestBody::Text(_) => panic!("text request"),
    }
}

#[test]
fn text_requests() {
    match SimpleTextJsonAdapter.build_request(&config(), &context()) {
        RequestBody::Text(r) => {
            assert_eq!(r.model, "model-x");
            assert_eq!(
                r.prompt,
                format!(
                    "系统指令:\n{}\n\n用户请求:\n请生成 video_prompt 提示词。",
                    context().build_system_prompt()
                )
            );
            assert_eq!(r.temperature_tenths, 7);
            assert_eq!(r.max_tokens, 2000);
        }
        RequestBody::Chat(_) => panic!("chat request"),
    }
}

#[test]
fn chat_responses() {
    let choice = |s: &str| Choice { message: ResponseMessage { content: s.to_string() } };
    let decoded = LlmResponse {
        choices: vec![choice("first"), choice("second")],
        usage: Some(Usage { prompt_tokens: 1, completion_tokens: 2, total_tokens: 3 }),
    };
    let r = OpenAiCompatibleAdapter.parse_response("b", 200, Ok(decoded)).unwrap();
    assert_eq!(r.content, "first");
    assert_eq!(r.token_usage, Some(3));
    let empty = LlmResponse { choices: Vec::new(), usage: None };
    let r = OpenAiCompatibleAdapter.parse_response("b", 200, Ok(empty)).unwrap();
    assert_eq!(r.content, "");
    assert_eq!(r.token_usage, None);
    let e = OpenAiCompatibleAdapter
        .parse_response(&"长".repeat(400), 201, Err("bad".to_string()))
        .unwrap_err();
    assert_eq!(e.status_code, Some(201));
    assert!(!e.retryable);
    assert_eq!(e.error_code(), Some("RESPONSE_PARSE_ERROR"));
    assert_eq!(e.message, "Response parse error: bad");
    assert_eq!(e.response_snippet(), Some("长".repeat(300).as_str()));
}

#[test]
fn text_is_found_in_every_place() {
    assert_eq!(content("\"plain\""), "plain");
    assert_eq!(content("{\"text\":\"t\"}"), "t");
    assert_eq!(content("{\"content\":\"c\"}"), "c");
    assert_eq!(content("{\"output\":\"o\"}"), "o");
    assert_eq!(content("{\"result\":\"r\"}"), "r");
    assert_eq!(content("{\"data\":{\"text\":\"dt\"}}"), "dt");
    assert_eq!(content("{\"data\":{\"content\":\"dc\"}}"), "dc");
    assert_eq!(content("{\"choices\":[{\"text\":\"ct\"}]}"), "ct");
    assert_eq!(content("{\"choices\":[{\"message\":{\"content\":\"cm\"}}]}"), "cm");
}

#[test]
fn earlier_places_are_preferred_unless_blank() {
    assert_eq!(content("{\"content\":\"c\",\"text\":\"t\"}"), "t");
    assert_eq!(content("{\"text\":\"  \",\"output\":\"o\",\"result\":\"r\"}"), "o");
    assert_eq!(content("{\"text\":5,\"result\":\" r \"}"), " r ");
}

#[test]
fn response_without_text_is_an_error() {
    for body in ["{}", "\"  \"", "[]", "null", "{\"text\":\"\"}", "{\"choices\":[]}"] {
        let e = simple(body).unwrap_err();
        assert_eq!(e.error_code(), Some("RESPONSE_SCHEMA_ERROR"));
        assert_eq!(e.message, "No text field found in response");
        assert_eq!(e.response_snippet(), Some(body));
        assert_eq!(e.status_code, Some(200));
        assert!(!e.retryable);
    }
}

#[test]
fn response_that_is_no_json_is_an_error() {
    let e = SimpleTextJsonAdapter.parse_body("<html>", 203).unwrap_err();
    let reason = serde_json::from_str::<serde_json::Value>("<html>").unwrap_err().to_string();
    assert_eq!(e.error_code(), Some("RESPONSE_PARSE_ERROR"));
    assert_eq!(e.message, format!("Response parse error: {reason}"));
    assert_eq!(e.status_code, Some(203));
    assert_eq!(e.response_snippet(), Some("<html>"));
}

#[test]
fn token_usage_is_found() {
    let usage = |body: &str| simple(body).unwrap().token_usage;
    assert_eq!(usage("{\"text\":\"t\",\"usage\":{\"total_tokens\":12}}"), Some(12));
    assert_eq!(usage("{\"text\":\"t\",\"token_usage\":13}"), Some(13));
    assert_eq!(usage("{\"text\":\"t\",\"total_tokens\":14}"), Some(14));
    assert_eq!(usage("{\"text\":\"t\",\"token_usage\":1,\"usage\":{\"total_tokens\":2}}"), Some(2));
    assert_eq!(usage("{\"text\":\"t\",\"token_usage\":-3}"), Some(-3));
    assert_eq!(usage("{\"text\":\"t\",\"token_usage\":1.5,\"total_tokens\":6}"), Some(6));
    assert_eq!(usage("{\"text\":\"t\",\"token_usage\":2147483648,\"total_tokens\":6}"), Some(6));
    assert_eq!(usage("{\"text\":\"t\",\"token_usage\":18446744073709551615}"), None);
    assert_eq!(usage("{\"text\":\"t\"}"), None);
}

#[test]
fn pointers_lead_into_documents() {
    let v = value("{\"a\":{\"b\":[1,\"x\",2147483647]},\"n\":null}");
    assert_eq!(find_text(&v, "/a/b/1"), Some("x"));
    assert_eq!(find_text(&v, "/a/b/0"), None);
    assert_eq!(find_text(&v, "/a/c"), None);
    assert_eq!(find_text(&v, "/n"), None);
    assert_eq!(find_count(&v, "/a/b/0"), Some(1));
    assert_eq!(find_count(&v, "/a/b/2"), Some(i32::MAX));
    assert_eq!(find_count(&v, "/a/b/3"), None);
    assert_eq!(find_count(&v, "/a/b/1"), None);
    assert_eq!(find_text(&value("\"whole\""), ""), Some("whole"));
    assert_eq!(extract_first_text(&value("{\"data\":{\"text\":\"d\"}}")).as_deref(), Some("d"));
    assert_eq!(extract_token_usage(&value("{\"total_tokens\":8}")), Some(8));
}

#[test]
fn counts_are_narrowed() {
    assert_eq!(narrow_count(Some(5), None), Some(5));
    assert_eq!(narrow_count(Some(-2_147_483_648), None), Some(i32::MIN));
    assert_eq!(narrow_count(Some(2_147_483_648), Some(2_147_483_648)), None);
    assert_eq!(narrow_count(None, Some(9)), Some(9));
    assert_eq!(narrow_count(None, None), None);
}

#[test]
fn first_candidates_win() {
    assert_eq!(
        first_usable_text(&vec![None, Some(" "), Some("a"), Some("b")]).as_deref(),
        Some("a")
    );
    assert_eq!(first_usable_text(&vec![None, Some("\n")]), None);
    assert_eq!(first_present_count(&vec![None, Some(0), Some(1)]), Some(0));
    assert_eq!(first_present_count(&Vec::new()), None);
    let r = settle_found(&vec![Some("x")], &vec![None, Some(4)], "body", 200).unwrap();
    assert_eq!((r.content.as_str(), r.token_usage), ("x", Some(4)));
    let e = settle_found(&vec![None], &vec![Some(4)], "body", 200).unwrap_err();
    assert_eq!(e.error_code(), Some("RESPONSE_SCHEMA_ERROR"));
}

#[test]
fn body_snippets_are_cut() {
    assert_eq!(body_snippet(&"a".repeat(301)), "a".repeat(300));
    assert_eq!(body_snippet("short"), "short");
}
