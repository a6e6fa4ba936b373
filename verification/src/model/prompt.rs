//! Prompt types and the records that are stored for them.

use vstd::prelude::*;

use crate::text;

verus! {

/// The kinds of prompt that the pipeline generates.
#[derive(Debug, Clone, Copy, PartialEq, Eq, Structural)]
pub enum PromptType {
    VideoPrompt,
    MultiViewPrompt,
    TextToImage,
    SpatialCompositionDrawing,
    FusionImage,
    SoundEffect,
    SpecialEffect,
}

/// The name under which a prompt type is stored.
pub open spec fn stored_name(t: PromptType) -> Seq<char> {
    match t {
        PromptType::VideoPrompt => "video_prompt"@,
        PromptType::MultiViewPrompt => "multi_view_prompt"@,
        PromptType::TextToImage => "text_to_image"@,
        PromptType::SpatialCompositionDrawing => "spatial_composition_drawing"@,
        PromptType::FusionImage => "fusion_image"@,
        PromptType::SoundEffect => "sound_effect"@,
        PromptType::SpecialEffect => "special_effect"@,
    }
}

/// The prompt types of one storyboard, in the order in which they are generated.
pub open spec fn storyboard_types() -> Seq<PromptType> {
    seq![
        PromptType::TextToImage,
        PromptType::SpatialCompositionDrawing,
        PromptType::FusionImage,
        PromptType::SoundEffect,
        PromptType::SpecialEffect,
    ]
}

impl PromptType {
    /// The name under which the prompt type is stored.
    pub fn as_str(&self) -> (r: &'static str)
        ensures
            r@ == stored_name(*self),
    {
        match self {
            PromptType::VideoPrompt => "video_prompt",
            PromptType::MultiViewPrompt => "multi_view_prompt",
            PromptType::TextToImage => "text_to_image",
            PromptType::SpatialCompositionDrawing => "spatial_composition_drawing",
            PromptType::FusionImage => "fusion_image",
            PromptType::SoundEffect => "sound_effect",
            PromptType::SpecialEffect => "special_effect",
        }
    }

    /// The prompt types of one storyboard, in the order in which they are generated.
    pub fn storyboard_sequence() -> (r: &'static [PromptType])
        ensures
            r@ == storyboard_types(),
    {
        let types: &'static [PromptType] = &[
            PromptType::TextToImage,
            PromptType::SpatialCompositionDrawing,
            PromptType::FusionImage,
            PromptType::SoundEffect,
            PromptType::SpecialEffect,
        ];
        assert(types@ =~= storyboard_types());
        types
    }
}

/// Whether a prompt was generated.
#[derive(Debug, Clone, Copy, PartialEq, Eq, Structural)]
pub enum PromptStatus {
    Success,
    Failed,
}

/// The number that a status is stored as.
pub open spec fn status_number(s: PromptStatus) -> i8 {
    match s {
        PromptStatus::Success => 0,
        PromptStatus::Failed => 1,
    }
}

impl PromptStatus {
    /// The number that the status is stored as.
    pub fn code(&self) -> (r: i8)
        ensures
            r == status_number(*self),
    {
        match self {
            PromptStatus::Success => 0,
            PromptStatus::Failed => 1,
        }
    }
}

/// One row of the table `tb_media_prompt`.
#[derive(Debug, Clone)]
pub struct MediaPrompt {
    pub task_id: i64,
    pub scene_index: i32,
    pub storyboard_index: Option<i32>,
    pub prompt_type: PromptType,
    pub prompt_content: Option<String>,
    pub status: PromptStatus,
    pub error_message: Option<String>,
    pub llm_error_code: Option<String>,
    pub llm_response_snippet: Option<String>,
    pub llm_duration_ms: Option<i64>,
    pub token_usage: Option<i32>,
    pub llm_retries: Option<i32>,
}

/// The contents of a [`MediaPrompt`].
#[verifier::ext_equal]
pub struct MediaPromptView {
    pub task_id: i64,
    pub scene_index: i32,
    pub storyboard_index: Option<i32>,
    pub prompt_type: PromptType,
    pub prompt_content: Option<Seq<char>>,
    pub status: PromptStatus,
    pub error_message: Option<Seq<char>>,
    pub llm_error_code: Option<Seq<char>>,
    pub llm_response_snippet: Option<Seq<char>>,
    pub llm_duration_ms: Option<i64>,
    pub token_usage: Option<i32>,
    pub llm_retries: Option<i32>,
}

impl View for MediaPrompt {
    type V = MediaPromptView;

    open spec fn view(&self) -> MediaPromptView {
        MediaPromptView {
            task_id: self.task_id,
            scene_index: self.scene_index,
            storyboard_index: self.storyboard_index,
            prompt_type: self.prompt_type,
            prompt_content: text::opt_text(self.prompt_content),
            status: self.status,
            error_message: text::opt_text(self.error_message),
            llm_error_code: text::opt_text(self.llm_error_code),
            llm_response_snippet: text::opt_text(self.llm_response_snippet),
            llm_duration_ms: self.llm_duration_ms,
            token_usage: self.token_usage,
            llm_retries: self.llm_retries,
        }
    }
}

/// The contents of a list of records.
pub open spec fn prompt_views(prompts: Seq<MediaPrompt>) -> Seq<MediaPromptView> {
    prompts.map_values(|p: MediaPrompt| p@)
}

/// A retry count as the table holds it: absent where it does not fit the column.
pub open spec fn stored_retries(retries: u32) -> Option<i32> {
    if retries <= i32::MAX {
        Some(retries as i32)
    } else {
        None
    }
}

/// The record of a generated prompt.
pub open spec fn success_record(
    task_id: i64,
    scene_index: i32,
    storyboard_index: Option<i32>,
    prompt_type: PromptType,
    content: Seq<char>,
    duration_ms: i64,
    token_usage: Option<i32>,
    retries: u32,
) -> MediaPromptView {
    MediaPromptView {
        task_id,
        scene_index,
        storyboard_index,
        prompt_type,
        prompt_content: Some(content),
        status: PromptStatus::Success,
        error_message: None,
        llm_error_code: None,
        llm_response_snippet: None,
        llm_duration_ms: Some(duration_ms),
        token_usage,
        llm_retries: stored_retries(retries),
    }
}

/// The record of a prompt that could not be generated.
pub open spec fn failure_record(
    task_id: i64,
    scene_index: i32,
    storyboard_index: Option<i32>,
    prompt_type: PromptType,
    error: Seq<char>,
    error_code: Option<Seq<char>>,
    response_snippet: Option<Seq<char>>,
    duration_ms: Option<i64>,
    retries: Option<u32>,
) -> MediaPromptView {
    MediaPromptView {
        task_id,
        scene_index,
        storyboard_index,
        prompt_type,
        prompt_content: None,
        status: PromptStatus::Failed,
        error_message: Some(error),
        llm_error_code: error_code,
        llm_response_snippet: response_snippet,
        llm_duration_ms: duration_ms,
        token_usage: None,
        llm_retries: match retries {
            Some(r) => stored_retries(r),
            None => None,
        },
    }
}

/// A retry count as the table holds it.
fn narrow_retries(retries: u32) -> (r: Option<i32>)
    ensures
        r == stored_retries(retries),
{
    if retries <= i32::MAX as u32 {
        Some(retries as i32)
    } else {
        None
    }
}

impl MediaPrompt {
    /// The record of a generated prompt.
    pub fn success(
        task_id: i64,
        scene_index: i32,
        storyboard_index: Option<i32>,
        prompt_type: PromptType,
        content: String,
        duration_ms: i64,
        token_usage: Option<i32>,
        retries: u32,
    ) -> (r: Self)
        ensures
            r@ == success_record(
                task_id,
                scene_index,
                storyboard_index,
                prompt_type,
                content@,
                duration_ms,
                token_usage,
                retries,
            ),
    {
        MediaPrompt {
            task_id,
            scene_index,
            storyboard_index,
            prompt_type,
            prompt_content: Some(content),
            status: PromptStatus::Success,
            error_message: None,
            llm_error_code: None,
            llm_response_snippet: None,
            llm_duration_ms: Some(duration_ms),
            token_usage,
            llm_retries: narrow_retries(retries),
        }
    }

    /// The record of a prompt that could not be generated.
    pub fn failed(
        task_id: i64,
        scene_index: i32,
        storyboard_index: Option<i32>,
        prompt_type: PromptType,
        error: String,
        error_code: Option<String>,
        response_snippet: Option<String>,
        duration_ms: Option<i64>,
        retries: Option<u32>,
    ) -> (r: Self)
        ensures
            r@ == failure_record(
                task_id,
                scene_index,
                storyboard_index,
                prompt_type,
                error@,
                text::opt_text(error_code),
                text::opt_text(response_snippet),
                duration_ms,
                retries,
            ),
    {
        MediaPrompt {
            task_id,
            scene_index,
            storyboard_index,
            prompt_type,
            prompt_content: None,
            status: PromptStatus::Failed,
            error_message: Some(error),
            llm_error_code: error_code,
            llm_response_snippet: response_snippet,
            llm_duration_ms: duration_ms,
            token_usage: None,
            llm_retries: match retries {
                Some(n) => narrow_retries(n),
                None => None,
            },
        }
    }
}

/// No two prompt types share a stored name.
pub proof fn stored_names_are_distinct(a: PromptType, b: PromptType)
    ensures
        stored_name(a) == stored_name(b) ==> a == b,
{
    reveal_strlit("video_prompt");
    reveal_strlit("multi_view_prompt");
    reveal_strlit("text_to_image");
    reveal_strlit("spatial_composition_drawing");
    reveal_strlit("fusion_image");
    reveal_strlit("sound_effect");
    reveal_strlit("special_effect");
    assert("video_prompt"@.len() == 12 && "multi_view_prompt"@.len() == 17);
    assert("text_to_image"@.len() == 13 && "spatial_composition_drawing"@.len() == 27);
    assert("fusion_image"@.len() == 12 && "sound_effect"@.len() == 12);
    assert("special_effect"@.len() == 14);
    assert("video_prompt"@[0] == 'v' && "fusion_image"@[0] == 'f' && "sound_effect"@[0] == 's');
}

/// Each prompt type is stored under its own words.
pub proof fn stored_names_are_these()
    ensures
        stored_name(PromptType::VideoPrompt) == "video_prompt"@,
        stored_name(PromptType::MultiViewPrompt) == "multi_view_prompt"@,
        stored_name(PromptType::TextToImage) == "text_to_image"@,
        stored_name(PromptType::SpatialCompositionDrawing) == "spatial_composition_drawing"@,
        stored_name(PromptType::FusionImage) == "fusion_image"@,
        stored_name(PromptType::SoundEffect) == "sound_effect"@,
        stored_name(PromptType::SpecialEffect) == "special_effect"@,
{
}

/// Every prompt type but a scene's own two comes once in a storyboard: the picture first, its
/// composition after it, their fusion after both, and the effects last.
pub proof fn storyboard_order()
    ensures
        storyboard_types().len() == 5,
        storyboard_types()[0] == PromptType::TextToImage,
        storyboard_types()[1] == PromptType::SpatialCompositionDrawing,
        storyboard_types()[2] == PromptType::FusionImage,
        storyboard_types()[3] == PromptType::SoundEffect,
        storyboard_types()[4] == PromptType::SpecialEffect,
{
}

/// A retry count is stored as it is wherever it fits, and left out where it does not.
pub proof fn retries_are_stored_where_they_fit(retries: u32)
    ensures
        retries <= 0x7fff_ffff ==> (stored_retries(retries) matches Some(n) && n == retries),
        retries > 0x7fff_ffff ==> stored_retries(retries) is None,
{
}

/// The record of a generated prompt says what it was generated for, holds all of the prompt and
/// what was measured of the call, and no error.
pub proof fn success_records_hold_the_prompt(
    task_id: i64,
    scene_index: i32,
    storyboard_index: Option<i32>,
    prompt_type: PromptType,
    content: Seq<char>,
    duration_ms: i64,
    token_usage: Option<i32>,
    retries: u32,
)
    ensures
        ({
            let p = success_record(
                task_id,
                scene_index,
                storyboard_index,
                prompt_type,
                content,
                duration_ms,
                token_usage,
                retries,
            );
            &&& p.task_id == task_id
            &&& p.scene_index == scene_index
            &&& p.storyboard_index == storyboard_index
            &&& p.prompt_type == prompt_type
            &&& p.prompt_content == Some(content)
            &&& p.status == PromptStatus::Success
            &&& p.error_message is None
            &&& p.llm_error_code is None
            &&& p.llm_response_snippet is None
            &&& p.llm_duration_ms == Some(duration_ms)
            &&& p.token_usage == token_usage
            &&& p.llm_retries == stored_retries(retries)
        }),
{
}

/// The record of a prompt that could not be generated says what it was to be generated for, and
/// holds all that is known of the error, and no prompt.
pub proof fn failure_records_hold_the_error(
    task_id: i64,
    scene_index: i32,
    storyboard_index: Option<i32>,
    prompt_type: PromptType,
    error: Seq<char>,
    error_code: Option<Seq<char>>,
    response_snippet: Option<Seq<char>>,
    duration_ms: Option<i64>,
    retries: Option<u32>,
)
    ensures
        ({
            let p = failure_record(
                task_id,
                scene_index,
                storyboard_index,
                prompt_type,
                error,
                error_code,
                response_snippet,
                duration_ms,
                retries,
            );
            &&& p.task_id == task_id
            &&& p.scene_index == scene_index
            &&& p.storyboard_index == storyboard_index
            &&& p.prompt_type == prompt_type
            &&& p.prompt_content is None
            &&& p.status == PromptStatus::Failed
            &&& p.error_message == Some(error)
            &&& p.llm_error_code == error_code
            &&& p.llm_response_snippet == response_snippet
            &&& p.llm_duration_ms == duration_ms
            &&& p.token_usage is None
            &&& retries matches Some(n) ==> p.llm_retries == stored_retries(n)
            &&& retries is None ==> p.llm_retries is None
        }),
{
}

/// The numbers of the two statuses are zero for success and one for failure.
pub proof fn status_numbers()
    ensures
        status_number(PromptStatus::Success) == 0,
        status_number(PromptStatus::Failed) == 1,
{
}

/// The contents of a record are its fields.
pub proof fn record_contents(p: MediaPrompt)
    ensures
        p@.task_id == p.task_id,
        p@.scene_index == p.scene_index,
        p@.storyboard_index == p.storyboard_index,
        p@.prompt_type == p.prompt_type,
        p.prompt_content matches Some(s) ==> p@.prompt_content == Some(s@),
        p.prompt_content is None ==> p@.prompt_content is None,
        p@.status == p.status,
        p.error_message matches Some(s) ==> p@.error_message == Some(s@),
        p.error_message is None ==> p@.error_message is None,
        p.llm_error_code matches Some(s) ==> p@.llm_error_code == Some(s@),
        p.llm_error_code is None ==> p@.llm_error_code is None,
        p.llm_response_snippet matches Some(s) ==> p@.llm_response_snippet == Some(s@),
        p.llm_response_snippet is None ==> p@.llm_response_snippet is None,
        p@.llm_duration_ms == p.llm_duration_ms,
        p@.token_usage == p.token_usage,
        p@.llm_retries == p.llm_retries,
{
}

/// The contents of a list of records are those of each record, in order.
pub proof fn record_list_contents(prompts: Seq<MediaPrompt>, i: int)
    requires
        0 <= i < prompts.len(),
    ensures
        prompt_views(prompts).len() == prompts.len(),
        prompt_views(prompts)[i] == prompts[i]@,
{
}

} // verus!
