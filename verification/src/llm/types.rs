//! Prompt contexts, and what each LLM provider is sent and answers.

use vstd::prelude::*;
use vstd::string::StringExecFns;

use crate::config::LlmConfig;
use crate::error::{self, prefixed, LlmError, LlmErrorView};
use crate::llm::json::{self, JsonNode};
use crate::model::prompt::{self, PromptType};
use crate::text;

verus! {

pub const PROVIDER_OPENAI_COMPATIBLE: &'static str = "openai_compatible";

pub const PROVIDER_SIMPLE_TEXT_JSON: &'static str = "simple_text_json";

/// The providers that the service can talk to.
pub fn supported_llm_providers() -> (r: &'static [&'static str])
    ensures
        r@.map_values(|p: &'static str| p@) == seq!["openai_compatible"@, "simple_text_json"@],
{
    let providers: &'static [&'static str] = &[
        PROVIDER_OPENAI_COMPATIBLE,
        PROVIDER_SIMPLE_TEXT_JSON,
    ];
    assert(providers@.map_values(|p: &'static str| p@) =~= seq![
        "openai_compatible"@,
        "simple_text_json"@,
    ]);
    providers
}

/// A chat request.
#[derive(Debug)]
pub struct LlmRequest {
    pub model: String,
    pub messages: Vec<ChatMessage>,
    /// The sampling temperature, in tenths.
    pub temperature_tenths: u32,
    pub max_tokens: Option<u32>,
}

#[derive(Debug, Clone)]
pub struct ChatMessage {
    pub role: String,
    pub content: String,
}

/// A request with a single prompt text.
#[derive(Debug)]
pub struct TextRequest {
    pub model: String,
    pub prompt: String,
    /// The sampling temperature, in tenths.
    pub temperature_tenths: u32,
    pub max_tokens: u32,
}

/// What is sent to a provider.
#[derive(Debug)]
pub enum RequestBody {
    Chat(LlmRequest),
    Text(TextRequest),
}

/// A chat response.
#[derive(Debug)]
pub struct LlmResponse {
    pub choices: Vec<Choice>,
    pub usage: Option<Usage>,
}

#[derive(Debug)]
pub struct Choice {
    pub message: ResponseMessage,
}

#[derive(Debug)]
pub struct ResponseMessage {
    pub content: String,
}

#[derive(Debug, Clone, Copy, PartialEq, Eq, Structural)]
pub struct Usage {
    pub prompt_tokens: i32,
    pub completion_tokens: i32,
    pub total_tokens: i32,
}

/// A successful response, whichever provider it came from.
#[derive(Debug, Clone)]
pub struct ParsedLlmResponse {
    pub content: String,
    pub token_usage: Option<i32>,
}

/// What was measured of one LLM call.
#[derive(Debug, Clone)]
pub struct CallMetrics {
    pub prompt_type: PromptType,
    pub scene_index: i32,
    pub storyboard_index: Option<i32>,
    pub duration_ms: i64,
    pub token_usage: Option<i32>,
    pub retries: u32,
    pub error: Option<String>,
}

/// The outcome of a successful LLM call.
#[derive(Debug, Clone)]
pub struct LlmResult {
    pub content: String,
    pub metrics: CallMetrics,
}

/// What one prompt is generated from.
#[derive(Debug, Clone)]
pub struct PromptContext {
    pub prompt_type: PromptType,
    pub scene_index: i32,
    pub storyboard_index: Option<i32>,
    pub scene_description: String,
    pub storyboard_content: Option<String>,
    pub video_prompt: Option<String>,
    pub multi_view_prompt: Option<String>,
    pub previous_prompts: Vec<(PromptType, String)>,
}

/// The contents of a [`ChatMessage`].
#[verifier::ext_equal]
pub struct ChatMessageView {
    pub role: Seq<char>,
    pub content: Seq<char>,
}

/// The contents of a [`RequestBody`].
#[verifier::ext_equal]
pub enum RequestView {
    Chat {
        model: Seq<char>,
        messages: Seq<ChatMessageView>,
        temperature_tenths: u32,
        max_tokens: Option<u32>,
    },
    Text { model: Seq<char>, prompt: Seq<char>, temperature_tenths: u32, max_tokens: u32 },
}

/// The contents of a [`ParsedLlmResponse`].
#[verifier::ext_equal]
pub struct ParsedView {
    pub content: Seq<char>,
    pub token_usage: Option<i32>,
}

/// The contents of [`CallMetrics`].
#[verifier::ext_equal]
pub struct CallMetricsView {
    pub prompt_type: PromptType,
    pub scene_index: i32,
    pub storyboard_index: Option<i32>,
    pub duration_ms: i64,
    pub token_usage: Option<i32>,
    pub retries: u32,
    pub error: Option<Seq<char>>,
}

/// The contents of an [`LlmResult`].
#[verifier::ext_equal]
pub struct LlmResultView {
    pub content: Seq<char>,
    pub metrics: CallMetricsView,
}

/// The contents of a [`PromptContext`].
#[verifier::ext_equal]
pub struct PromptContextView {
    pub prompt_type: PromptType,
    pub scene_index: i32,
    pub storyboard_index: Option<i32>,
    pub scene_description: Seq<char>,
    pub storyboard_content: Option<Seq<char>>,
    pub video_prompt: Option<Seq<char>>,
    pub multi_view_prompt: Option<Seq<char>>,
    pub previous_prompts: Seq<(PromptType, Seq<char>)>,
}

impl View for ChatMessage {
    type V = ChatMessageView;

    open spec fn view(&self) -> ChatMessageView {
        ChatMessageView { role: self.role@, content: self.content@ }
    }
}

impl View for RequestBody {
    type V = RequestView;

    open spec fn view(&self) -> RequestView {
        match *self {
            RequestBody::Chat(r) => RequestView::Chat {
                model: r.model@,
                messages: r.messages@.map_values(|m: ChatMessage| m@),
                temperature_tenths: r.temperature_tenths,
                max_tokens: r.max_tokens,
            },
            RequestBody::Text(r) => RequestView::Text {
                model: r.model@,
                prompt: r.prompt@,
                temperature_tenths: r.temperature_tenths,
                max_tokens: r.max_tokens,
            },
        }
    }
}

impl View for ParsedLlmResponse {
    type V = ParsedView;

    open spec fn view(&self) -> ParsedView {
        ParsedView { content: self.content@, token_usage: self.token_usage }
    }
}

impl View for CallMetrics {
    type V = CallMetricsView;

    open spec fn view(&self) -> CallMetricsView {
        CallMetricsView {
            prompt_type: self.prompt_type,
            scene_index: self.scene_index,
            storyboard_index: self.storyboard_index,
            duration_ms: self.duration_ms,
            token_usage: self.token_usage,
            retries: self.retries,
            error: text::opt_text(self.error),
        }
    }
}

impl View for LlmResult {
    type V = LlmResultView;

    open spec fn view(&self) -> LlmResultView {
        LlmResultView { content: self.content@, metrics: self.metrics@ }
    }
}

/// The contents of a list of earlier prompts.
pub open spec fn previous_views(previous: Seq<(PromptType, String)>) -> Seq<
    (PromptType, Seq<char>),
> {
    previous.map_values(|p: (PromptType, String)| (p.0, p.1@))
}

impl View for PromptContext {
    type V = PromptContextView;

    open spec fn view(&self) -> PromptContextView {
        PromptContextView {
            prompt_type: self.prompt_type,
            scene_index: self.scene_index,
            storyboard_index: self.storyboard_index,
            scene_description: self.scene_description@,
            storyboard_content: text::opt_text(self.storyboard_content),
            video_prompt: text::opt_text(self.video_prompt),
            multi_view_prompt: text::opt_text(self.multi_view_prompt),
            previous_prompts: previous_views(self.previous_prompts@),
        }
    }
}

/// The contents of what came of one request.
pub open spec fn parsed_view(r: Result<ParsedLlmResponse, LlmError>) -> Result<
    ParsedView,
    LlmErrorView,
> {
    match r {
        Ok(p) => Ok(p@),
        Err(e) => Err(e@),
    }
}

/// The first earlier prompt of a type; empty where there is none.
pub open spec fn earlier_prompt(
    previous: Seq<(PromptType, Seq<char>)>,
    t: PromptType,
) -> Seq<char>
    decreases previous.len(),
{
    if previous.len() == 0 {
        Seq::empty()
    } else if previous[0].0 == t {
        previous[0].1
    } else {
        earlier_prompt(previous.drop_first(), t)
    }
}

/// The instructions for generating one prompt.
pub open spec fn system_prompt(ctx: PromptContextView) -> Seq<char> {
    let video = text::text_or_empty(ctx.video_prompt);
    let multi_view = text::text_or_empty(ctx.multi_view_prompt);
    let content = text::text_or_empty(ctx.storyboard_content);
    let text_to_image = earlier_prompt(ctx.previous_prompts, PromptType::TextToImage);
    let composition = earlier_prompt(ctx.previous_prompts, PromptType::SpatialCompositionDrawing);
    match ctx.prompt_type {
        PromptType::VideoPrompt => {
            "你是一个专业的影视视频提示词生成专家。\n\
             请根据以下场景描述，生成一段详细的视频提示词(video prompt)。\n\
             场景描述："@
                + ctx.scene_description
                + "\n要求：提示词应包含画面风格、色调、运镜方式等关键信息。"@
        },
        PromptType::MultiViewPrompt => {
            "你是一个专业的多视角提示词生成专家。\n\
             请根据以下场景描述和已生成的视频提示词，生成多视角提示词(multi-view prompt)。\n\
             场景描述："@
                + ctx.scene_description
                + "\n视频提示词："@
                + video
                + "\n要求：提示词应涵盖不同机位和视角的描述。"@
        },
        PromptType::TextToImage => {
            "你是一个专业的文生图提示词生成专家。\n\
             请根据以下分镜内容及上下文，生成 text-to-image 提示词。\n\
             视频提示词："@
                + video
                + "\n多视角提示词："@
                + multi_view
                + "\n分镜内容："@
                + content
                + "\n要求：提示词应精确描述画面主体、构图、光影和风格。"@
        },
        PromptType::SpatialCompositionDrawing => {
            "你是一个专业的空间构图绘画提示词生成专家。\n\
             请根据以下上下文，生成空间构图提示词。\n\
             视频提示词："@
                + video
                + "\n多视角提示词："@
                + multi_view
                + "\n文生图提示词："@
                + text_to_image
                + "\n分镜内容："@
                + content
                + "\n要求：提示词应精确描述空间布局、前中后景层次和透视关系。"@
        },
        PromptType::FusionImage => {
            "你是一个专业的融合图像提示词生成专家。\n\
             请根据以下上下文，生成融合图像提示词。\n\
             视频提示词："@
                + video
                + "\n多视角提示词："@
                + multi_view
                + "\n文生图提示词："@
                + text_to_image
                + "\n空间构图提示词："@
                + composition
                + "\n分镜内容："@
                + content
                + "\n要求：提示词应描述如何将各元素融合为最终画面。"@
        },
        PromptType::SoundEffect => {
            "你是一个专业的音效设计提示词生成专家。\n\
             请根据以下分镜内容和视觉提示词，生成音效提示词。\n\
             视频提示词："@
                + video
                + "\n分镜内容："@
                + content
                + "\n要求：提示词应描述环境音、音效类型、节奏和情绪氛围。"@
        },
        PromptType::SpecialEffect => {
            "你是一个专业的特效设计提示词生成专家。\n\
             请根据以下分镜内容和视觉提示词，生成特效提示词。\n\
             视频提示词："@
                + video
                + "\n分镜内容："@
                + content
                + "\n要求：提示词应描述粒子效果、光影特效、转场效果等。"@
        },
    }
}

/// What the user asks for.
pub open spec fn user_prompt(t: PromptType) -> Seq<char> {
    "请生成 "@ + prompt::stored_name(t) + " 提示词。"@
}

/// What the user asks for.
fn ask_for(t: PromptType) -> (r: String)
    ensures
        r@ == user_prompt(t),
{
    let mut out: String = prefixed("请生成 ", t.as_str());
    out.append(" 提示词。");
    out
}

impl PromptContext {
    /// Builds the instructions for generating the prompt.
    pub fn build_system_prompt(&self) -> (r: String)
        ensures
            r@ == system_prompt(self@),
    {
        let video: &str = text::borrow_or_empty(&self.video_prompt);
        let multi_view: &str = text::borrow_or_empty(&self.multi_view_prompt);
        let content: &str = text::borrow_or_empty(&self.storyboard_content);
        match self.prompt_type {
            PromptType::VideoPrompt => {
                let mut out: String = ("你是一个专业的影视视频提示词生成专家。\n\
                     请根据以下场景描述，生成一段详细的视频提示词(video prompt)。\n\
                     场景描述：").to_owned();
                out.append(self.scene_description.as_str());
                out.append("\n要求：提示词应包含画面风格、色调、运镜方式等关键信息。");
                out
            },
            PromptType::MultiViewPrompt => {
                let mut out: String = ("你是一个专业的多视角提示词生成专家。\n\
                     请根据以下场景描述和已生成的视频提示词，生成多视角提示词(multi-view prompt)。\n\
                     场景描述：").to_owned();
                out.append(self.scene_description.as_str());
                out.append("\n视频提示词：");
                out.append(video);
                out.append("\n要求：提示词应涵盖不同机位和视角的描述。");
                out
            },
            PromptType::TextToImage => {
                let mut out: String = ("你是一个专业的文生图提示词生成专家。\n\
                     请根据以下分镜内容及上下文，生成 text-to-image 提示词。\n\
                     视频提示词：").to_owned();
                out.append(video);
                out.append("\n多视角提示词：");
                out.append(multi_view);
                out.append("\n分镜内容：");
                out.append(content);
                out.append("\n要求：提示词应精确描述画面主体、构图、光影和风格。");
                out
            },
            PromptType::SpatialCompositionDrawing => {
                let text_to_image: String = self.get_previous(PromptType::TextToImage);
                let mut out: String = ("你是一个专业的空间构图绘画提示词生成专家。\n\
                     请根据以下上下文，生成空间构图提示词。\n\
                     视频提示词：").to_owned();
                out.append(video);
                out.append("\n多视角提示词：");
                out.append(multi_view);
                out.append("\n文生图提示词：");
                out.append(text_to_image.as_str());
                out.append("\n分镜内容：");
                out.append(content);
                out.append("\n要求：提示词应精确描述空间布局、前中后景层次和透视关系。");
                out
            },
            PromptType::FusionImage => {
                let text_to_image: String = self.get_previous(PromptType::TextToImage);
                let composition: String = self.get_previous(
                    PromptType::SpatialCompositionDrawing,
                );
                let mut out: String = ("你是一个专业的融合图像提示词生成专家。\n\
                     请根据以下上下文，生成融合图像提示词。\n\
                     视频提示词：").to_owned();
                out.append(video);
                out.append("\n多视角提示词：");
                out.append(multi_view);
                out.append("\n文生图提示词：");
                out.append(text_to_image.as_str());
                out.append("\n空间构图提示词：");
                out.append(composition.as_str());
                out.append("\n分镜内容：");
                out.append(content);
                out.append("\n要求：提示词应描述如何将各元素融合为最终画面。");
                out
            },
            PromptType::SoundEffect => {
                let mut out: String = ("你是一个专业的音效设计提示词生成专家。\n\
                     请根据以下分镜内容和视觉提示词，生成音效提示词。\n\
                     视频提示词：").to_owned();
                out.append(video);
                out.append("\n分镜内容：");
                out.append(content);
                out.append("\n要求：提示词应描述环境音、音效类型、节奏和情绪氛围。");
                out
            },
            PromptType::SpecialEffect => {
                let mut out: String = ("你是一个专业的特效设计提示词生成专家。\n\
                     请根据以下分镜内容和视觉提示词，生成特效提示词。\n\
                     视频提示词：").to_owned();
                out.append(video);
                out.append("\n分镜内容：");
                out.append(content);
                out.append("\n要求：提示词应描述粒子效果、光影特效、转场效果等。");
                out
            },
        }
    }

    /// A copy of the first earlier prompt of a type; empty where there is none.
    pub fn get_previous(&self, pt: PromptType) -> (r: String)
        ensures
            r@ == earlier_prompt(self@.previous_prompts, pt),
    {
        let mut i: usize = 0;
        let ghost all = previous_views(self.previous_prompts@);
        assert(all.skip(0) =~= all);
        while i < self.previous_prompts.len()
            invariant
                i <= self.previous_prompts@.len(),
                all == previous_views(self.previous_prompts@),
                earlier_prompt(all.skip(i as int), pt) == earlier_prompt(all, pt),
            decreases self.previous_prompts@.len() - i,
        {
            assert(all.skip(i as int)[0] == all[i as int]);
            assert(all.skip(i as int).drop_first() =~= all.skip(i + 1));
            if self.previous_prompts[i].0 == pt {
                return self.previous_prompts[i].1.clone();
            }
            i += 1;
        }
        String::new()
    }
}

/// The error of a response that could not be decoded.
pub open spec fn undecodable(status: u16, reason: Seq<char>, body: Seq<char>) -> LlmErrorView {
    error::lasting(
        status,
        "RESPONSE_PARSE_ERROR"@,
        "Response parse error: "@ + reason,
        Some(text::first_chars(body, 300)),
    )
}

/// The error of a response in which no text was found.
pub open spec fn textless(status: u16, body: Seq<char>) -> LlmErrorView {
    error::lasting(
        status,
        "RESPONSE_SCHEMA_ERROR"@,
        "No text field found in response"@,
        Some(text::first_chars(body, 300)),
    )
}

/// The piece of a response body that an error carries.
pub fn body_snippet(body_text: &str) -> (r: String)
    ensures
        r@ == text::first_chars(body_text@, 300),
{
    text::prefix(body_text, 300)
}

/// The error of a response that could not be decoded.
fn parse_error(status: u16, reason: &str, body_text: &str) -> (r: LlmError)
    ensures
        r@ == undecodable(status, reason@, body_text@),
{
    LlmError::non_retryable_with_meta(
        status,
        "RESPONSE_PARSE_ERROR".to_owned(),
        prefixed("Response parse error: ", reason),
        Some(body_snippet(body_text)),
    )
}

/// A provider's formats of requests and responses.
pub trait LlmAdapter {
    /// What a response body decodes to.
    type Decoded;

    /// The provider's name.
    spec fn name(&self) -> Seq<char>;

    /// What is sent for a context.
    spec fn request(&self, model: Seq<char>, ctx: PromptContextView) -> RequestView;

    /// What a response means, given what its body decoded to, or the text of the decoding error.
    spec fn meaning(
        &self,
        decoded: Result<Self::Decoded, String>,
        body: Seq<char>,
        status: u16,
    ) -> Result<ParsedView, LlmErrorView>;

    fn provider(&self) -> (r: &'static str)
        ensures
            r@ == self.name(),
    ;

    fn build_request(&self, config: &LlmConfig, ctx: &PromptContext) -> (r: RequestBody)
        ensures
            r@ == self.request(config.model@, ctx@),
    ;

    fn parse_response(
        &self,
        body_text: &str,
        status: u16,
        decoded: Result<Self::Decoded, String>,
    ) -> (r: Result<ParsedLlmResponse, LlmError>)
        ensures
            parsed_view(r) == self.meaning(decoded, body_text@, status),
    ;
}

/// The provider of OpenAI-compatible chat completions.
#[derive(Debug, Clone, Copy, Default)]
pub struct OpenAiCompatibleAdapter;

/// What is sent to an OpenAI-compatible provider.
pub open spec fn chat_request(model: Seq<char>, ctx: PromptContextView) -> RequestView {
    RequestView::Chat {
        model,
        messages: seq![
            ChatMessageView { role: "system"@, content: system_prompt(ctx) },
            ChatMessageView { role: "user"@, content: user_prompt(ctx.prompt_type) },
        ],
        temperature_tenths: 7,
        max_tokens: Some(2000),
    }
}

/// What a chat response says: the content of its first choice, empty where it has none.
pub open spec fn chat_content(response: LlmResponse) -> ParsedView {
    ParsedView {
        content: if response.choices@.len() > 0 {
            response.choices@[0].message.content@
        } else {
            Seq::empty()
        },
        token_usage: match response.usage {
            Some(u) => Some(u.total_tokens),
            None => None,
        },
    }
}

/// What an OpenAI-compatible response means.
pub open spec fn chat_meaning(
    decoded: Result<LlmResponse, String>,
    body: Seq<char>,
    status: u16,
) -> Result<ParsedView, LlmErrorView> {
    match decoded {
        Ok(response) => Ok(chat_content(response)),
        Err(reason) => Err(undecodable(status, reason@, body)),
    }
}

impl LlmAdapter for OpenAiCompatibleAdapter {
    type Decoded = LlmResponse;

    open spec fn name(&self) -> Seq<char> {
        "openai_compatible"@
    }

    open spec fn request(&self, model: Seq<char>, ctx: PromptContextView) -> RequestView {
        chat_request(model, ctx)
    }

    open spec fn meaning(
        &self,
        decoded: Result<LlmResponse, String>,
        body: Seq<char>,
        status: u16,
    ) -> Result<ParsedView, LlmErrorView> {
        chat_meaning(decoded, body, status)
    }

    fn provider(&self) -> (r: &'static str) {
        PROVIDER_OPENAI_COMPATIBLE
    }

    fn build_request(&self, config: &LlmConfig, ctx: &PromptContext) -> (r: RequestBody) {
        let mut messages: Vec<ChatMessage> = Vec::new();
        messages.push(
            ChatMessage { role: "system".to_owned(), content: ctx.build_system_prompt() },
        );
        messages.push(
            ChatMessage { role: "user".to_owned(), content: ask_for(ctx.prompt_type) },
        );
        let body = RequestBody::Chat(
            LlmRequest {
                model: config.model.clone(),
                messages,
                temperature_tenths: 7,
                max_tokens: Some(2000),
            },
        );
        proof {
            let sent = messages@.map_values(|m: ChatMessage| m@);
            assert(sent =~= chat_request(config.model@, ctx@)->messages);
        }
        body
    }

    fn parse_response(
        &self,
        body_text: &str,
        status: u16,
        decoded: Result<LlmResponse, String>,
    ) -> (r: Result<ParsedLlmResponse, LlmError>) {
        match decoded {
            Ok(response) => {
                let token_usage: Option<i32> = match &response.usage {
                    Some(u) => Some(u.total_tokens),
                    None => None,
                };
                let content: String = if response.choices.len() > 0 {
                    response.choices[0].message.content.clone()
                } else {
                    String::new()
                };
                Ok(ParsedLlmResponse { content, token_usage })
            },
            Err(reason) => Err(parse_error(status, reason.as_str(), body_text)),
        }
    }
}

/// The provider that answers JSON with a text somewhere in it.
#[derive(Debug, Clone, Copy, Default)]
pub struct SimpleTextJsonAdapter;

/// What is sent to a plain-text provider.
pub open spec fn text_request(model: Seq<char>, ctx: PromptContextView) -> RequestView {
    RequestView::Text {
        model,
        prompt: "系统指令:\n"@ + system_prompt(ctx) + "\n\n用户请求:\n"@ + user_prompt(
            ctx.prompt_type,
        ),
        temperature_tenths: 7,
        max_tokens: 2000,
    }
}

/// The places of a document where the text of a response may stand, in order of preference.
pub open spec fn text_candidates(nodes: Map<Seq<char>, JsonNode>) -> Seq<Option<Seq<char>>> {
    seq![
        json::node_text(nodes[Seq::empty()]),
        json::text_at(nodes, "/text"@),
        json::text_at(nodes, "/content"@),
        json::text_at(nodes, "/output"@),
        json::text_at(nodes, "/result"@),
        json::text_at(nodes, "/data/text"@),
        json::text_at(nodes, "/data/content"@),
        json::text_at(nodes, "/choices/0/text"@),
        json::text_at(nodes, "/choices/0/message/content"@),
    ]
}

/// The places of a document where the number of tokens may stand, in order of preference.
pub open spec fn count_candidates(nodes: Map<Seq<char>, JsonNode>) -> Seq<Option<i32>> {
    seq![
        json::count_at(nodes, "/usage/total_tokens"@),
        json::count_at(nodes, "/token_usage"@),
        json::count_at(nodes, "/total_tokens"@),
    ]
}

/// The first candidate that is there and not blank.
pub open spec fn first_usable(candidates: Seq<Option<Seq<char>>>) -> Option<Seq<char>>
    decreases candidates.len(),
{
    if candidates.len() == 0 {
        None
    } else {
        match candidates[0] {
            Some(s) if !text::is_blank(s) => Some(s),
            _ => first_usable(candidates.drop_first()),
        }
    }
}

/// The first candidate that is there.
pub open spec fn first_present(candidates: Seq<Option<i32>>) -> Option<i32>
    decreases candidates.len(),
{
    if candidates.len() == 0 {
        None
    } else if candidates[0] is Some {
        candidates[0]
    } else {
        first_present(candidates.drop_first())
    }
}

/// What a plain-text response means, by the texts and the numbers of tokens found in it.
pub open spec fn found_meaning(
    texts: Seq<Option<Seq<char>>>,
    counts: Seq<Option<i32>>,
    body: Seq<char>,
    status: u16,
) -> Result<ParsedView, LlmErrorView> {
    match first_usable(texts) {
        Some(content) => Ok(ParsedView { content, token_usage: first_present(counts) }),
        None => Err(textless(status, body)),
    }
}

/// What a plain-text response means, by the nodes of its document or the text of the parse
/// error.
pub open spec fn text_meaning(
    outcome: Result<Map<Seq<char>, JsonNode>, Seq<char>>,
    body: Seq<char>,
    status: u16,
) -> Result<ParsedView, LlmErrorView> {
    match outcome {
        Ok(nodes) => found_meaning(text_candidates(nodes), count_candidates(nodes), body, status),
        Err(reason) => Err(undecodable(status, reason, body)),
    }
}

/// The nodes of a decoded document, or the text of the parse error.
pub open spec fn decoded_nodes(decoded: Result<serde_json::Value, String>) -> Result<
    Map<Seq<char>, JsonNode>,
    Seq<char>,
> {
    match decoded {
        Ok(v) => Ok(json::json_nodes(v)),
        Err(reason) => Err(reason@),
    }
}

/// The contents of a list of candidate texts.
pub open spec fn candidate_views(candidates: Seq<Option<&str>>) -> Seq<Option<Seq<char>>> {
    candidates.map_values(|c: Option<&str>| text::opt_str(c))
}

/// A copy of the first candidate that is there and not blank.
pub fn first_usable_text(candidates: &Vec<Option<&str>>) -> (r: Option<String>)
    ensures
        text::opt_text(r) == first_usable(candidate_views(candidates@)),
{
    let mut i: usize = 0;
    let ghost all = candidate_views(candidates@);
    assert(all.skip(0) =~= all);
    while i < candidates.len()
        invariant
            i <= candidates@.len(),
            all == candidate_views(candidates@),
            first_usable(all.skip(i as int)) == first_usable(all),
        decreases candidates@.len() - i,
    {
        assert(all.skip(i as int)[0] == all[i as int]);
        assert(all.skip(i as int).drop_first() =~= all.skip(i + 1));
        if let Some(s) = candidates[i] {
            if !text::blank(s) {
                return Some(s.to_owned());
            }
        }
        i += 1;
    }
    None
}

/// The first candidate that is there.
pub fn first_present_count(candidates: &Vec<Option<i32>>) -> (r: Option<i32>)
    ensures
        r == first_present(candidates@),
{
    let mut i: usize = 0;
    assert(candidates@.skip(0) =~= candidates@);
    while i < candidates.len()
        invariant
            i <= candidates@.len(),
            first_present(candidates@.skip(i as int)) == first_present(candidates@),
        decreases candidates@.len() - i,
    {
        assert(candidates@.skip(i as int)[0] == candidates@[i as int]);
        assert(candidates@.skip(i as int).drop_first() =~= candidates@.skip(i + 1));
        if candidates[i].is_some() {
            return candidates[i];
        }
        i += 1;
    }
    None
}

/// The texts at the places where the text of a response may stand.
fn texts_of<'a>(value: &'a serde_json::Value) -> (r: Vec<Option<&'a str>>)
    ensures
        candidate_views(r@) == text_candidates(json::json_nodes(*value)),
{
    let mut texts: Vec<Option<&'a str>> = Vec::new();
    texts.push(value.as_str());
    texts.push(json::find_text(value, "/text"));
    texts.push(json::find_text(value, "/content"));
    texts.push(json::find_text(value, "/output"));
    texts.push(json::find_text(value, "/result"));
    texts.push(json::find_text(value, "/data/text"));
    texts.push(json::find_text(value, "/data/content"));
    texts.push(json::find_text(value, "/choices/0/text"));
    texts.push(json::find_text(value, "/choices/0/message/content"));
    assert(candidate_views(texts@) =~= text_candidates(json::json_nodes(*value)));
    texts
}

/// The integers at the places where the number of tokens may stand.
fn counts_of(value: &serde_json::Value) -> (r: Vec<Option<i32>>)
    ensures
        r@ == count_candidates(json::json_nodes(*value)),
{
    let mut counts: Vec<Option<i32>> = Vec::new();
    counts.push(json::find_count(value, "/usage/total_tokens"));
    counts.push(json::find_count(value, "/token_usage"));
    counts.push(json::find_count(value, "/total_tokens"));
    assert(counts@ =~= count_candidates(json::json_nodes(*value)));
    counts
}

/// The text of a response: that at the first place where one stands that is not blank.
pub fn extract_first_text(value: &serde_json::Value) -> (r: Option<String>)
    ensures
        text::opt_text(r) == first_usable(text_candidates(json::json_nodes(*value))),
{
    first_usable_text(&texts_of(value))
}

/// The number of tokens that a response reports, at the first place where one stands that fits.
pub fn extract_token_usage(value: &serde_json::Value) -> (r: Option<i32>)
    ensures
        r == first_present(count_candidates(json::json_nodes(*value))),
{
    first_present_count(&counts_of(value))
}

/// What a plain-text response means, by the texts and the numbers of tokens found in it.
pub fn settle_found(
    texts: &Vec<Option<&str>>,
    counts: &Vec<Option<i32>>,
    body_text: &str,
    status: u16,
) -> (r: Result<ParsedLlmResponse, LlmError>)
    ensures
        parsed_view(r) == found_meaning(candidate_views(texts@), counts@, body_text@, status),
{
    match first_usable_text(texts) {
        Some(content) => Ok(
            ParsedLlmResponse { content, token_usage: first_present_count(counts) },
        ),
        None => Err(
            LlmError::non_retryable_with_meta(
                status,
                "RESPONSE_SCHEMA_ERROR".to_owned(),
                "No text field found in response".to_owned(),
                Some(body_snippet(body_text)),
            ),
        ),
    }
}

impl LlmAdapter for SimpleTextJsonAdapter {
    type Decoded = serde_json::Value;

    open spec fn name(&self) -> Seq<char> {
        "simple_text_json"@
    }

    open spec fn request(&self, model: Seq<char>, ctx: PromptContextView) -> RequestView {
        text_request(model, ctx)
    }

    open spec fn meaning(
        &self,
        decoded: Result<serde_json::Value, String>,
        body: Seq<char>,
        status: u16,
    ) -> Result<ParsedView, LlmErrorView> {
        text_meaning(decoded_nodes(decoded), body, status)
    }

    fn provider(&self) -> (r: &'static str) {
        PROVIDER_SIMPLE_TEXT_JSON
    }

    fn build_request(&self, config: &LlmConfig, ctx: &PromptContext) -> (r: RequestBody) {
        let mut prompt: String = prefixed("系统指令:\n", ctx.build_system_prompt().as_str());
        prompt.append("\n\n用户请求:\n");
        prompt.append(ask_for(ctx.prompt_type).as_str());
        RequestBody::Text(
            TextRequest {
                model: config.model.clone(),
                prompt,
                temperature_tenths: 7,
                max_tokens: 2000,
            },
        )
    }

    fn parse_response(
        &self,
        body_text: &str,
        status: u16,
        decoded: Result<serde_json::Value, String>,
    ) -> (r: Result<ParsedLlmResponse, LlmError>) {
        match decoded {
            Ok(value) => settle_found(&texts_of(&value), &counts_of(&value), body_text, status),
            Err(reason) => Err(parse_error(status, reason.as_str(), body_text)),
        }
    }
}

impl SimpleTextJsonAdapter {
    /// Decodes a response body and says what the response means.
    pub fn parse_body(&self, body_text: &str, status: u16) -> (r: Result<
        ParsedLlmResponse,
        LlmError,
    >)
        ensures
            parsed_view(r) == text_meaning(json::json_outcome(body_text@), body_text@, status),
    {
        self.parse_response(body_text, status, json::parse_json(body_text))
    }
}

/// The first earlier prompt of a type is the one that is found, in full, wherever it stands; where
/// there is none of that type, nothing is.
pub proof fn first_earlier_prompt_is_found(
    previous: Seq<(PromptType, Seq<char>)>,
    t: PromptType,
    k: int,
)
    requires
        0 <= k <= previous.len(),
        forall|i: int| 0 <= i < k ==> (#[trigger] previous[i]).0 != t,
        k < previous.len() ==> previous[k].0 == t,
    ensures
        k < previous.len() ==> earlier_prompt(previous, t) == previous[k].1,
        k == previous.len() ==> earlier_prompt(previous, t).len() == 0,
    decreases k,
{
    if k > 0 {
        let rest = previous.drop_first();
        assert(previous[0].0 != t);
        assert forall|i: int| 0 <= i < k - 1 implies (#[trigger] rest[i]).0 != t by {
            assert(rest[i] == previous[i + 1]);
        }
        first_earlier_prompt_is_found(rest, t, k - 1);
    }
}

/// The instructions for each prompt type hold, in full and after their labels, what that prompt is
/// generated from: the scene's description for its video prompt, that and the video prompt for its
/// multi-view prompt, and for the prompts of a storyboard its content with the earlier prompts that
/// they depend on. What is missing is left empty.
pub proof fn instructions_hold_what_the_prompt_depends_on(ctx: PromptContextView)
    ensures
        ({
            let video = match ctx.video_prompt {
                Some(s) => s,
                None => Seq::empty(),
            };
            let multi_view = match ctx.multi_view_prompt {
                Some(s) => s,
                None => Seq::empty(),
            };
            let content = match ctx.storyboard_content {
                Some(s) => s,
                None => Seq::empty(),
            };
            let text_to_image = earlier_prompt(ctx.previous_prompts, PromptType::TextToImage);
            let composition = earlier_prompt(
                ctx.previous_prompts,
                PromptType::SpatialCompositionDrawing,
            );
            &&& ctx.prompt_type == PromptType::VideoPrompt ==> system_prompt(ctx) == "你是一个专业的影视视频提示词生成专家。\n\
             请根据以下场景描述，生成一段详细的视频提示词(video prompt)。\n\
             场景描述："@
                + ctx.scene_description
                + "\n要求：提示词应包含画面风格、色调、运镜方式等关键信息。"@
            &&& ctx.prompt_type == PromptType::MultiViewPrompt ==> system_prompt(ctx) == "你是一个专业的多视角提示词生成专家。\n\
             请根据以下场景描述和已生成的视频提示词，生成多视角提示词(multi-view prompt)。\n\
             场景描述："@
                + ctx.scene_description
                + "\n视频提示词："@
                + video
                + "\n要求：提示词应涵盖不同机位和视角的描述。"@
            &&& ctx.prompt_type == PromptType::TextToImage ==> system_prompt(ctx) == "你是一个专业的文生图提示词生成专家。\n\
             请根据以下分镜内容及上下文，生成 text-to-image 提示词。\n\
             视频提示词："@
                + video
                + "\n多视角提示词："@
                + multi_view
                + "\n分镜内容："@
                + content
                + "\n要求：提示词应精确描述画面主体、构图、光影和风格。"@
            &&& ctx.prompt_type == PromptType::SpatialCompositionDrawing ==> system_prompt(ctx) == "你是一个专业的空间构图绘画提示词生成专家。\n\
             请根据以下上下文，生成空间构图提示词。\n\
             视频提示词："@
                + video
                + "\n多视角提示词："@
                + multi_view
                + "\n文生图提示词："@
                + text_to_image
                + "\n分镜内容："@
                + content
                + "\n要求：提示词应精确描述空间布局、前中后景层次和透视关系。"@
            &&& ctx.prompt_type == PromptType::FusionImage ==> system_prompt(ctx) == "你是一个专业的融合图像提示词生成专家。\n\
             请根据以下上下文，生成融合图像提示词。\n\
             视频提示词："@
                + video
                + "\n多视角提示词："@
                + multi_view
                + "\n文生图提示词："@
                + text_to_image
                + "\n空间构图提示词："@
                + composition
                + "\n分镜内容："@
                + content
                + "\n要求：提示词应描述如何将各元素融合为最终画面。"@
            &&& ctx.prompt_type == PromptType::SoundEffect ==> system_prompt(ctx) == "你是一个专业的音效设计提示词生成专家。\n\
             请根据以下分镜内容和视觉提示词，生成音效提示词。\n\
             视频提示词："@
                + video
                + "\n分镜内容："@
                + content
                + "\n要求：提示词应描述环境音、音效类型、节奏和情绪氛围。"@
            &&& ctx.prompt_type == PromptType::SpecialEffect ==> system_prompt(ctx) == "你是一个专业的特效设计提示词生成专家。\n\
             请根据以下分镜内容和视觉提示词，生成特效提示词。\n\
             视频提示词："@
                + video
                + "\n分镜内容："@
                + content
                + "\n要求：提示词应描述粒子效果、光影特效、转场效果等。"@
        }),
{
}

/// The user asks for a prompt by the name of its type.
pub proof fn the_user_asks_by_name(t: PromptType)
    ensures
        user_prompt(t) == "请生成 "@ + prompt::stored_name(t) + " 提示词。"@,
{
}

/// A chat request names the model, gives the instructions as the system and asks as the user; a
/// text request holds the same in one text. Both ask for the same temperature and length.
pub proof fn requests_hold_instructions_and_question(model: Seq<char>, ctx: PromptContextView)
    ensures
        chat_request(model, ctx) matches RequestView::Chat {
            model: named,
            messages,
            temperature_tenths,
            max_tokens,
        } && {
            &&& named == model
            &&& messages.len() == 2
            &&& messages[0].role == "system"@
            &&& messages[0].content == system_prompt(ctx)
            &&& messages[1].role == "user"@
            &&& messages[1].content == user_prompt(ctx.prompt_type)
            &&& temperature_tenths == 7
            &&& max_tokens == Some(2000u32)
        },
        text_request(model, ctx) matches RequestView::Text {
            model: named,
            prompt,
            temperature_tenths,
            max_tokens,
        } && {
            &&& named == model
            &&& prompt == "系统指令:\n"@ + system_prompt(ctx) + "\n\n用户请求:\n"@ + user_prompt(
                ctx.prompt_type,
            )
            &&& temperature_tenths == 7
            &&& max_tokens == 2000
        },
{
}

/// A chat response says the whole content of its first choice, and nothing where it has none; it
/// reports the total of the tokens, where it reports any.
pub proof fn chat_responses_say_their_first_choice(response: LlmResponse, body: Seq<char>, status: u16)
    ensures
        chat_meaning(Ok(response), body, status) matches Ok(p) && {
            &&& response.choices@.len() > 0 ==> p.content == response.choices@[0].message.content@
            &&& response.choices@.len() == 0 ==> p.content.len() == 0
            &&& response.usage matches Some(u) ==> p.token_usage == Some(u.total_tokens)
            &&& response.usage is None ==> p.token_usage is None
        },
{
}

/// A response that cannot be decoded fails for good, with the reason and the beginning of the body;
/// so does one without a text.
pub proof fn unusable_responses_fail_for_good(
    status: u16,
    reason: String,
    body: Seq<char>,
)
    ensures
        ({
            let bad = undecodable(status, reason@, body);
            let empty = textless(status, body);
            &&& chat_meaning(Err(reason), body, status) == Err::<ParsedView, LlmErrorView>(bad)
            &&& text_meaning(Err(reason@), body, status) == Err::<ParsedView, LlmErrorView>(bad)
            &&& !bad.retryable && !empty.retryable
            &&& bad.status_code == Some(status) && empty.status_code == Some(status)
            &&& bad.error_code == Some("RESPONSE_PARSE_ERROR"@)
            &&& empty.error_code == Some("RESPONSE_SCHEMA_ERROR"@)
            &&& bad.message == "Response parse error: "@ + reason@
            &&& empty.message == "No text field found in response"@
            &&& bad.response_snippet == Some(text::first_chars(body, 300))
            &&& empty.response_snippet == Some(text::first_chars(body, 300))
            &&& bad.retries is None && bad.duration_ms is None
            &&& empty.retries is None && empty.duration_ms is None
        }),
{
}

/// The first candidate that is there and not blank is taken, as it is; where there is none, nothing
/// is.
pub proof fn first_usable_candidate_is_taken(candidates: Seq<Option<Seq<char>>>, k: int)
    requires
        0 <= k <= candidates.len(),
        forall|i: int|
            0 <= i < k ==> ((#[trigger] candidates[i]) is None || text::is_blank(candidates[i]->0)),
        k < candidates.len() ==> candidates[k] is Some && !text::is_blank(candidates[k]->0),
    ensures
        k < candidates.len() ==> first_usable(candidates) == candidates[k],
        k == candidates.len() ==> first_usable(candidates) is None,
    decreases k,
{
    if k > 0 {
        let rest = candidates.drop_first();
        assert(candidates[0] is None || text::is_blank(candidates[0]->0));
        assert forall|i: int| 0 <= i < k - 1 implies ((#[trigger] rest[i]) is None
            || text::is_blank(rest[i]->0)) by {
            assert(rest[i] == candidates[i + 1]);
        }
        first_usable_candidate_is_taken(rest, k - 1);
    }
}

/// The first candidate that is there is taken; where there is none, nothing is.
pub proof fn first_present_candidate_is_taken(candidates: Seq<Option<i32>>, k: int)
    requires
        0 <= k <= candidates.len(),
        forall|i: int| 0 <= i < k ==> (#[trigger] candidates[i]) is None,
        k < candidates.len() ==> candidates[k] is Some,
    ensures
        k < candidates.len() ==> first_present(candidates) == candidates[k],
        k == candidates.len() ==> first_present(candidates) is None,
    decreases k,
{
    if k > 0 {
        let rest = candidates.drop_first();
        assert(candidates[0] is None);
        assert forall|i: int| 0 <= i < k - 1 implies (#[trigger] rest[i]) is None by {
            assert(rest[i] == candidates[i + 1]);
        }
        first_present_candidate_is_taken(rest, k - 1);
    }
}

/// The text of a response is looked for in nine places, and its number of tokens in three, in this
/// order. What is found is what stands there.
pub proof fn responses_are_searched_in_order(nodes: Map<Seq<char>, JsonNode>)
    ensures
        text_candidates(nodes).len() == 9,
        text_candidates(nodes)[0] == json::node_text(nodes[Seq::empty()]),
        text_candidates(nodes)[1] == json::text_at(nodes, "/text"@),
        text_candidates(nodes)[2] == json::text_at(nodes, "/content"@),
        text_candidates(nodes)[3] == json::text_at(nodes, "/output"@),
        text_candidates(nodes)[4] == json::text_at(nodes, "/result"@),
        text_candidates(nodes)[5] == json::text_at(nodes, "/data/text"@),
        text_candidates(nodes)[6] == json::text_at(nodes, "/data/content"@),
        text_candidates(nodes)[7] == json::text_at(nodes, "/choices/0/text"@),
        text_candidates(nodes)[8] == json::text_at(nodes, "/choices/0/message/content"@),
        count_candidates(nodes).len() == 3,
        count_candidates(nodes)[0] == json::count_at(nodes, "/usage/total_tokens"@),
        count_candidates(nodes)[1] == json::count_at(nodes, "/token_usage"@),
        count_candidates(nodes)[2] == json::count_at(nodes, "/total_tokens"@),
{
}

/// A document with a text in one of the places succeeds with that text, in full, and with the number
/// of tokens that it reports; one without fails.
pub proof fn documents_mean_their_first_text(
    nodes: Map<Seq<char>, JsonNode>,
    body: Seq<char>,
    status: u16,
)
    ensures
        match first_usable(text_candidates(nodes)) {
            Some(content) => text_meaning(Ok(nodes), body, status) matches Ok(p) && p.content
                == content && p.token_usage == first_present(count_candidates(nodes)),
            None => text_meaning(Ok(nodes), body, status) == Err::<ParsedView, LlmErrorView>(
                textless(status, body),
            ),
        },
{
}

/// The contents of a context are its fields, the earlier prompts in order.
pub proof fn context_contents(ctx: PromptContext)
    ensures
        ctx@.prompt_type == ctx.prompt_type,
        ctx@.scene_index == ctx.scene_index,
        ctx@.storyboard_index == ctx.storyboard_index,
        ctx@.scene_description == ctx.scene_description@,
        ctx.storyboard_content matches Some(s) ==> ctx@.storyboard_content == Some(s@),
        ctx.storyboard_content is None ==> ctx@.storyboard_content is None,
        ctx.video_prompt matches Some(s) ==> ctx@.video_prompt == Some(s@),
        ctx.video_prompt is None ==> ctx@.video_prompt is None,
        ctx.multi_view_prompt matches Some(s) ==> ctx@.multi_view_prompt == Some(s@),
        ctx.multi_view_prompt is None ==> ctx@.multi_view_prompt is None,
        ctx@.previous_prompts.len() == ctx.previous_prompts@.len(),
        forall|i: int|
            0 <= i < ctx.previous_prompts@.len() ==> #[trigger] ctx@.previous_prompts[i] == (
                ctx.previous_prompts@[i].0,
                ctx.previous_prompts@[i].1@,
            ),
{
}

/// The contents of what a call returned are its fields.
pub proof fn result_contents(r: LlmResult, p: ParsedLlmResponse)
    ensures
        r@.content == r.content@,
        r@.metrics.prompt_type == r.metrics.prompt_type,
        r@.metrics.scene_index == r.metrics.scene_index,
        r@.metrics.storyboard_index == r.metrics.storyboard_index,
        r@.metrics.duration_ms == r.metrics.duration_ms,
        r@.metrics.token_usage == r.metrics.token_usage,
        r@.metrics.retries == r.metrics.retries,
        r.metrics.error matches Some(s) ==> r@.metrics.error == Some(s@),
        r.metrics.error is None ==> r@.metrics.error is None,
        p@.content == p.content@,
        p@.token_usage == p.token_usage,
        parsed_view(Ok(p)) == Ok::<ParsedView, LlmErrorView>(p@),
{
}

/// The contents of an unusable response are those of its error.
pub proof fn unusable_contents(e: LlmError)
    ensures
        parsed_view(Err(e)) == Err::<ParsedView, LlmErrorView>(e@),
{
}

/// The contents of a request are its fields, its messages in order.
pub proof fn request_contents(body: RequestBody)
    ensures
        body matches RequestBody::Chat(r) ==> (body@ matches RequestView::Chat {
            model,
            messages,
            temperature_tenths,
            max_tokens,
        } && {
            &&& model == r.model@
            &&& messages.len() == r.messages@.len()
            &&& forall|i: int|
                0 <= i < messages.len() ==> (#[trigger] messages[i]).role == r.messages@[i].role@
                    && messages[i].content == r.messages@[i].content@
            &&& temperature_tenths == r.temperature_tenths
            &&& max_tokens == r.max_tokens
        }),
        body matches RequestBody::Text(r) ==> body@ == (RequestView::Text {
            model: r.model@,
            prompt: r.prompt@,
            temperature_tenths: r.temperature_tenths,
            max_tokens: r.max_tokens,
        }),
{
}

/// The chat provider is sent a chat request, and is understood by the first choice of its response.
pub proof fn chat_provider(
    a: OpenAiCompatibleAdapter,
    model: Seq<char>,
    ctx: PromptContextView,
    response: LlmResponse,
    reason: String,
    body: Seq<char>,
    status: u16,
)
    ensures
        a.name() == "openai_compatible"@,
        a.request(model, ctx) matches RequestView::Chat { model: named, messages, .. } && {
            &&& named == model
            &&& messages.len() == 2
            &&& messages[0].content == system_prompt(ctx)
            &&& messages[1].content == user_prompt(ctx.prompt_type)
        },
        a.meaning(Ok(response), body, status) matches Ok(p) && {
            &&& response.choices@.len() > 0 ==> p.content == response.choices@[0].message.content@
            &&& response.choices@.len() == 0 ==> p.content.len() == 0
            &&& response.usage matches Some(u) ==> p.token_usage == Some(u.total_tokens)
            &&& response.usage is None ==> p.token_usage is None
        },
        a.meaning(Err(reason), body, status) matches Err(e) && {
            &&& !e.retryable
            &&& e.status_code == Some(status)
            &&& e.error_code == Some("RESPONSE_PARSE_ERROR"@)
            &&& e.message == "Response parse error: "@ + reason@
        },
{
}

/// The plain-text provider is sent one text, and is understood by the text found in its response.
pub proof fn text_provider(
    a: SimpleTextJsonAdapter,
    model: Seq<char>,
    ctx: PromptContextView,
    document: serde_json::Value,
    reason: String,
    body: Seq<char>,
    status: u16,
)
    ensures
        a.name() == "simple_text_json"@,
        a.request(model, ctx) matches RequestView::Text { model: named, prompt, .. } && {
            &&& named == model
            &&& prompt == "系统指令:\n"@ + system_prompt(ctx) + "\n\n用户请求:\n"@ + user_prompt(
                ctx.prompt_type,
            )
        },
        ({
            let nodes = json::json_nodes(document);
            match first_usable(text_candidates(nodes)) {
                Some(content) => a.meaning(Ok(document), body, status) matches Ok(p) && p.content
                    == content && p.token_usage == first_present(count_candidates(nodes)),
                None => a.meaning(Ok(document), body, status) matches Err(e) && !e.retryable
                    && e.error_code == Some("RESPONSE_SCHEMA_ERROR"@),
            }
        }),
        a.meaning(Err(reason), body, status) matches Err(e) && {
            &&& !e.retryable
            &&& e.status_code == Some(status)
            &&& e.error_code == Some("RESPONSE_PARSE_ERROR"@)
            &&& e.message == "Response parse error: "@ + reason@
        },
{
}

/// What was found means the first text that is not blank, with the first number of tokens; without
/// such a text it is an error.
pub proof fn found_texts_are_what_is_meant(
    texts: Seq<Option<Seq<char>>>,
    counts: Seq<Option<i32>>,
    body: Seq<char>,
    status: u16,
    k: int,
    j: int,
)
    requires
        0 <= k <= texts.len(),
        forall|i: int|
            0 <= i < k ==> ((#[trigger] texts[i]) matches Some(s) ==> text::is_blank(s)),
        k < texts.len() ==> texts[k] is Some && !text::is_blank(texts[k]->0),
        0 <= j <= counts.len(),
        forall|i: int| 0 <= i < j ==> (#[trigger] counts[i]) is None,
        j < counts.len() ==> counts[j] is Some,
    ensures
        k < texts.len() ==> (found_meaning(texts, counts, body, status) matches Ok(p) && {
            &&& Some(p.content) == texts[k]
            &&& j < counts.len() ==> p.token_usage == counts[j]
            &&& j == counts.len() ==> p.token_usage is None
        }),
        k == texts.len() ==> (found_meaning(texts, counts, body, status) matches Err(e) && {
            &&& !e.retryable
            &&& e.status_code == Some(status)
            &&& e.error_code == Some("RESPONSE_SCHEMA_ERROR"@)
            &&& e.message == "No text field found in response"@
            &&& e.response_snippet == Some(text::first_chars(body, 300))
        }),
{
    first_usable_candidate_is_taken(texts, k);
    first_present_candidate_is_taken(counts, j);
}

/// The contents of candidates are their texts, in order.
pub proof fn candidate_contents(candidates: Seq<Option<&str>>, i: int)
    requires
        0 <= i < candidates.len(),
    ensures
        candidate_views(candidates).len() == candidates.len(),
        candidates[i] matches Some(s) ==> candidate_views(candidates)[i] == Some(s@),
        candidates[i] is None ==> candidate_views(candidates)[i] is None,
{
}

} // verus!
