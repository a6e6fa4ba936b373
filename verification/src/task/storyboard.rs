//! The prompts of one storyboard, one after the other.

use vstd::prelude::*;

use crate::error::{self, AppError, AppErrorView};
use crate::llm::client;
use crate::llm::types::{self, LlmResult, LlmResultView, PromptContext, PromptContextView};
use crate::model::prompt::{self, MediaPrompt, MediaPromptView, PromptType};
use crate::model::script::Storyboard;
use crate::text;

verus! {

/// What came of a storyboard, partial successes included.
#[derive(Debug)]
pub struct StoryboardResult {
    pub storyboard_index: i32,
    pub prompts: Vec<MediaPrompt>,
    pub has_error: bool,
}

/// What the prompts of a storyboard are generated from.
#[verifier::ext_equal]
pub struct StoryboardJob {
    pub task_id: i64,
    pub scene_index: i32,
    pub storyboard_index: i32,
    pub content: Seq<char>,
    pub scene_description: Seq<char>,
    pub video_prompt: Seq<char>,
    pub multi_view_prompt: Seq<char>,
}

/// How far a storyboard has come.
#[verifier::ext_equal]
pub struct StoryboardState {
    pub job: StoryboardJob,
    /// The records so far.
    pub prompts: Seq<MediaPromptView>,
    /// The prompts generated so far.
    pub previous: Seq<(PromptType, Seq<char>)>,
    /// Whether a prompt could not be generated.
    pub has_error: bool,
}

/// How long an LLM error took.
pub open spec fn error_duration(e: AppErrorView) -> Option<i64> {
    match e {
        AppErrorView::Llm(l) => l.duration_ms,
        _ => None,
    }
}

/// How often the call of an LLM error was retried.
pub open spec fn error_retries(e: AppErrorView) -> Option<u32> {
    match e {
        AppErrorView::Llm(l) => l.retries,
        _ => None,
    }
}

/// The code of an LLM error.
pub open spec fn error_code(e: AppErrorView) -> Option<Seq<char>> {
    match e {
        AppErrorView::Llm(l) => l.error_code,
        _ => None,
    }
}

/// The piece of the response that an LLM error carries.
pub open spec fn error_snippet(e: AppErrorView) -> Option<Seq<char>> {
    match e {
        AppErrorView::Llm(l) => l.response_snippet,
        _ => None,
    }
}

/// The record of one reply of the LLM to a storyboard.
pub open spec fn reply_record(
    job: StoryboardJob,
    t: PromptType,
    reply: Result<LlmResultView, AppErrorView>,
) -> MediaPromptView {
    match reply {
        Ok(v) => prompt::success_record(
            job.task_id,
            job.scene_index,
            Some(job.storyboard_index),
            t,
            v.content,
            v.metrics.duration_ms,
            v.metrics.token_usage,
            v.metrics.retries,
        ),
        Err(e) => prompt::failure_record(
            job.task_id,
            job.scene_index,
            Some(job.storyboard_index),
            t,
            error::error_text(e),
            error_code(e),
            error_snippet(e),
            error_duration(e),
            error_retries(e),
        ),
    }
}

/// A storyboard at its beginning.
pub open spec fn storyboard_start(job: StoryboardJob) -> StoryboardState {
    StoryboardState { job, prompts: Seq::empty(), previous: Seq::empty(), has_error: false }
}

/// Whether nothing more is generated for a storyboard: one prompt failed, or all were generated.
pub open spec fn storyboard_finished(s: StoryboardState) -> bool {
    s.has_error || s.previous.len() >= prompt::storyboard_types().len()
}

/// What the next prompt of an unfinished storyboard is generated from.
pub open spec fn storyboard_context(s: StoryboardState) -> PromptContextView {
    PromptContextView {
        prompt_type: prompt::storyboard_types()[s.previous.len() as int],
        scene_index: s.job.scene_index,
        storyboard_index: Some(s.job.storyboard_index),
        scene_description: s.job.scene_description,
        storyboard_content: Some(s.job.content),
        video_prompt: Some(s.job.video_prompt),
        multi_view_prompt: Some(s.job.multi_view_prompt),
        previous_prompts: s.previous,
    }
}

/// An unfinished storyboard after the LLM's reply for its next prompt.
pub open spec fn storyboard_step(
    s: StoryboardState,
    reply: Result<LlmResultView, AppErrorView>,
) -> StoryboardState {
    let t = prompt::storyboard_types()[s.previous.len() as int];
    StoryboardState {
        job: s.job,
        prompts: s.prompts.push(reply_record(s.job, t, reply)),
        previous: match reply {
            Ok(v) => s.previous.push((t, v.content)),
            Err(_) => s.previous,
        },
        has_error: reply is Err,
    }
}

/// What every storyboard keeps: there is one record for each prompt that was generated, in
/// order, and one more where a prompt failed.
pub open spec fn storyboard_wf(s: StoryboardState) -> bool {
    &&& s.previous.len() <= prompt::storyboard_types().len()
    &&& s.has_error ==> s.previous.len() < prompt::storyboard_types().len()
    &&& s.prompts.len() == s.previous.len() + if s.has_error {
        1int
    } else {
        0int
    }
    &&& forall|i: int|
        0 <= i < s.previous.len() ==> (#[trigger] s.previous[i]).0 == prompt::storyboard_types()[i]
    &&& forall|i: int|
        0 <= i < s.prompts.len() ==> {
            let p = #[trigger] s.prompts[i];
            &&& p.task_id == s.job.task_id
            &&& p.scene_index == s.job.scene_index
            &&& p.storyboard_index == Some(s.job.storyboard_index)
            &&& p.prompt_type == prompt::storyboard_types()[i]
            &&& i < s.previous.len() ==> p.status == prompt::PromptStatus::Success
                && p.prompt_content == Some(s.previous[i].1)
            &&& i == s.previous.len() ==> p.status == prompt::PromptStatus::Failed
                && p.error_message is Some
        }
}

/// A storyboard whose prompts are being generated.
#[derive(Debug)]
pub struct StoryboardRun {
    task_id: i64,
    scene_index: i32,
    storyboard_index: i32,
    content: String,
    scene_description: String,
    video_prompt: String,
    multi_view_prompt: String,
    prompts: Vec<MediaPrompt>,
    previous: Vec<(PromptType, String)>,
    has_error: bool,
}

impl View for StoryboardRun {
    type V = StoryboardState;

    closed spec fn view(&self) -> StoryboardState {
        StoryboardState {
            job: StoryboardJob {
                task_id: self.task_id,
                scene_index: self.scene_index,
                storyboard_index: self.storyboard_index,
                content: self.content@,
                scene_description: self.scene_description@,
                video_prompt: self.video_prompt@,
                multi_view_prompt: self.multi_view_prompt@,
            },
            prompts: prompt::prompt_views(self.prompts@),
            previous: types::previous_views(self.previous@),
            has_error: self.has_error,
        }
    }
}

/// A copy of the earlier prompts.
fn copy_previous(previous: &Vec<(PromptType, String)>) -> (r: Vec<(PromptType, String)>)
    ensures
        types::previous_views(r@) == types::previous_views(previous@),
{
    let mut out: Vec<(PromptType, String)> = Vec::new();
    let mut i: usize = 0;
    while i < previous.len()
        invariant
            i <= previous@.len(),
            types::previous_views(out@) == types::previous_views(previous@.take(i as int)),
        decreases previous@.len() - i,
    {
        let ghost before = out@;
        out.push((previous[i].0, previous[i].1.clone()));
        proof {
            let entry = (previous@[i as int].0, previous@[i as int].1@);
            assert(types::previous_views(out@) =~= types::previous_views(before).push(entry));
            assert(types::previous_views(previous@.take(i + 1)) =~= types::previous_views(
                previous@.take(i as int),
            ).push(entry));
        }
        i += 1;
    }
    assert(previous@.take(previous@.len() as int) =~= previous@);
    out
}

impl StoryboardRun {
    /// Begins with a storyboard of a scene whose own prompts are there.
    pub fn start(
        task_id: i64,
        scene_index: i32,
        storyboard: &Storyboard,
        scene_description: &str,
        video_prompt: &str,
        multi_view_prompt: &str,
    ) -> (r: Self)
        ensures
            r@ == storyboard_start(
                (StoryboardJob {
                    task_id,
                    scene_index,
                    storyboard_index: storyboard.storyboard_index,
                    content: text::text_or_empty(storyboard@.content),
                    scene_description: scene_description@,
                    video_prompt: video_prompt@,
                    multi_view_prompt: multi_view_prompt@,
                }),
            ),
            storyboard_wf(r@),
            !storyboard_finished(r@),
    {
        let run = StoryboardRun {
            task_id,
            scene_index,
            storyboard_index: storyboard.storyboard_index,
            content: text::copy_or_empty(&storyboard.content),
            scene_description: scene_description.to_owned(),
            video_prompt: video_prompt.to_owned(),
            multi_view_prompt: multi_view_prompt.to_owned(),
            prompts: Vec::new(),
            previous: Vec::new(),
            has_error: false,
        };
        assert(run@.prompts =~= Seq::<MediaPromptView>::empty());
        assert(run@.previous =~= Seq::<(PromptType, Seq<char>)>::empty());
        run
    }

    /// Whether nothing more is generated.
    pub fn finished(&self) -> (r: bool)
        ensures
            r == storyboard_finished(self@),
    {
        self.has_error || self.previous.len() >= PromptType::storyboard_sequence().len()
    }

    /// What the next prompt is generated from.
    pub fn next_context(&self) -> (r: PromptContext)
        requires
            !storyboard_finished(self@),
        ensures
            r@ == storyboard_context(self@),
    {
        let prompt_type: PromptType = PromptType::storyboard_sequence()[self.previous.len()];
        PromptContext {
            prompt_type,
            scene_index: self.scene_index,
            storyboard_index: Some(self.storyboard_index),
            scene_description: self.scene_description.clone(),
            storyboard_content: Some(self.content.clone()),
            video_prompt: Some(self.video_prompt.clone()),
            multi_view_prompt: Some(self.multi_view_prompt.clone()),
            previous_prompts: copy_previous(&self.previous),
        }
    }

    /// What came of the storyboard.
    pub fn into_result(self) -> (r: StoryboardResult)
        ensures
            r.storyboard_index == self@.job.storyboard_index,
            prompt::prompt_views(r.prompts@) == self@.prompts,
            r.has_error == self@.has_error,
    {
        StoryboardResult {
            storyboard_index: self.storyboard_index,
            prompts: self.prompts,
            has_error: self.has_error,
        }
    }
}

/// Takes the LLM's reply for the next prompt of a storyboard. A failure is recorded and ends the
/// storyboard; what was generated before it stays.
pub fn process_storyboard(run: StoryboardRun, reply: Result<LlmResult, AppError>) -> (r:
    StoryboardRun)
    requires
        storyboard_wf(run@),
        !storyboard_finished(run@),
    ensures
        r@ == storyboard_step(run@, client::reply_view(reply)),
        storyboard_wf(r@),
{
    let prompt_type: PromptType = PromptType::storyboard_sequence()[run.previous.len()];
    let mut prompts: Vec<MediaPrompt> = run.prompts;
    let mut previous: Vec<(PromptType, String)> = run.previous;
    let has_error: bool;
    match reply {
        Ok(result) => {
            prompts.push(
                MediaPrompt::success(
                    run.task_id,
                    run.scene_index,
                    Some(run.storyboard_index),
                    prompt_type,
                    result.content.clone(),
                    result.metrics.duration_ms,
                    result.metrics.token_usage,
                    result.metrics.retries,
                ),
            );
            previous.push((prompt_type, result.content));
            has_error = false;
        },
        Err(e) => {
            prompts.push(
                MediaPrompt::failed(
                    run.task_id,
                    run.scene_index,
                    Some(run.storyboard_index),
                    prompt_type,
                    e.message(),
                    extract_error_code(&e),
                    extract_response_snippet(&e),
                    extract_duration_ms(&e),
                    extract_retries(&e),
                ),
            );
            has_error = true;
        },
    }
    let next = StoryboardRun {
        task_id: run.task_id,
        scene_index: run.scene_index,
        storyboard_index: run.storyboard_index,
        content: run.content,
        scene_description: run.scene_description,
        video_prompt: run.video_prompt,
        multi_view_prompt: run.multi_view_prompt,
        prompts,
        previous,
        has_error,
    };
    proof {
        let stepped = storyboard_step(run@, client::reply_view(reply));
        assert(next@.prompts =~= stepped.prompts);
        assert(next@.previous =~= stepped.previous);
        storyboard_step_keeps_wf(run@, client::reply_view(reply));
    }
    next
}

pub fn extract_duration_ms(err: &AppError) -> (r: Option<i64>)
    ensures
        r == error_duration(err@),
{
    match err {
        AppError::Llm(e) => e.duration_ms(),
        _ => None,
    }
}

pub fn extract_retries(err: &AppError) -> (r: Option<u32>)
    ensures
        r == error_retries(err@),
{
    match err {
        AppError::Llm(e) => e.retries(),
        _ => None,
    }
}

pub fn extract_error_code(err: &AppError) -> (r: Option<String>)
    ensures
        text::opt_text(r) == error_code(err@),
{
    match err {
        AppError::Llm(e) => text::copy_opt(&e.error_code),
        _ => None,
    }
}

pub fn extract_response_snippet(err: &AppError) -> (r: Option<String>)
    ensures
        text::opt_text(r) == error_snippet(err@),
{
    match err {
        AppError::Llm(e) => text::copy_opt(&e.response_snippet),
        _ => None,
    }
}

/// Every reply keeps what storyboards keep.
pub proof fn storyboard_step_keeps_wf(
    s: StoryboardState,
    reply: Result<LlmResultView, AppErrorView>,
)
    requires
        storyboard_wf(s),
        !storyboard_finished(s),
    ensures
        storyboard_wf(storyboard_step(s, reply)),
{
    let n = storyboard_step(s, reply);
    assert forall|i: int| 0 <= i < n.prompts.len() implies {
        let p = #[trigger] n.prompts[i];
        &&& p.task_id == n.job.task_id
        &&& p.scene_index == n.job.scene_index
        &&& p.storyboard_index == Some(n.job.storyboard_index)
        &&& p.prompt_type == prompt::storyboard_types()[i]
        &&& i < n.previous.len() ==> p.status == prompt::PromptStatus::Success && p.prompt_content
            == Some(n.previous[i].1)
        &&& i == n.previous.len() ==> p.status == prompt::PromptStatus::Failed
            && p.error_message is Some
    } by {
        if i < s.prompts.len() {
            assert(n.prompts[i] == s.prompts[i]);
            assert(n.previous[i] == s.previous[i]);
        }
    }
}

/// A storyboard after a list of replies. Replies after the end are not taken.
pub open spec fn storyboard_run(
    s: StoryboardState,
    replies: Seq<Result<LlmResultView, AppErrorView>>,
) -> StoryboardState
    decreases replies.len(),
{
    if replies.len() == 0 || storyboard_finished(s) {
        s
    } else {
        storyboard_run(storyboard_step(s, replies[0]), replies.drop_first())
    }
}

/// How many of a list of replies a storyboard at its beginning takes: those up to the first
/// failure, it included, and never more than there are prompt types.
pub open spec fn replies_taken(replies: Seq<Result<LlmResultView, AppErrorView>>, limit: nat) -> nat
    decreases limit,
{
    if replies.len() == 0 || limit == 0 {
        0
    } else if replies[0] is Err {
        1
    } else {
        1 + replies_taken(replies.drop_first(), (limit - 1) as nat)
    }
}

/// No more replies are taken than there are, and than the limit allows.
pub proof fn replies_taken_bounds(
    replies: Seq<Result<LlmResultView, AppErrorView>>,
    limit: nat,
)
    ensures
        replies_taken(replies, limit) <= replies.len(),
        replies_taken(replies, limit) <= limit,
        replies.len() > 0 && limit > 0 ==> replies_taken(replies, limit) > 0,
    decreases limit,
{
    if replies.len() > 0 && limit > 0 && replies[0] is Ok {
        replies_taken_bounds(replies.drop_first(), (limit - 1) as nat);
    }
}

proof fn storyboard_run_from(
    s: StoryboardState,
    replies: Seq<Result<LlmResultView, AppErrorView>>,
)
    requires
        storyboard_wf(s),
        !s.has_error,
    ensures
        ({
            let done = s.previous.len() as int;
            let limit = (prompt::storyboard_types().len() - done) as nat;
            let n = replies_taken(replies, limit) as int;
            let end = storyboard_run(s, replies);
            &&& n <= replies.len() && n <= limit
            &&& storyboard_wf(end)
            &&& end.job == s.job
            &&& end.prompts == s.prompts + Seq::new(
                n as nat,
                |i: int| reply_record(s.job, prompt::storyboard_types()[done + i], replies[i]),
            )
            &&& end.has_error == (n > 0 && replies[n - 1] is Err)
            &&& forall|i: int| 0 <= i < n - 1 ==> (#[trigger] replies[i]) is Ok
        }),
    decreases replies.len(),
{
    let done = s.previous.len() as int;
    let limit = (prompt::storyboard_types().len() - done) as nat;
    let n = replies_taken(replies, limit) as int;
    let end = storyboard_run(s, replies);
    if replies.len() == 0 || limit == 0 {
        assert(end.prompts =~= s.prompts + Seq::new(
            n as nat,
            |i: int| reply_record(s.job, prompt::storyboard_types()[done + i], replies[i]),
        ));
    } else {
        let next = storyboard_step(s, replies[0]);
        let rest = replies.drop_first();
        storyboard_step_keeps_wf(s, replies[0]);
        if replies[0] is Err {
            assert(storyboard_run(next, rest) == next);
            assert(end.prompts =~= s.prompts + Seq::new(
                n as nat,
                |i: int| reply_record(s.job, prompt::storyboard_types()[done + i], replies[i]),
            ));
        } else {
            storyboard_run_from(next, rest);
            assert(end.prompts =~= s.prompts + Seq::new(
                n as nat,
                |i: int| reply_record(s.job, prompt::storyboard_types()[done + i], replies[i]),
            ));
            assert forall|i: int| 0 <= i < n - 1 implies (#[trigger] replies[i]) is Ok by {
                if i > 0 {
                    assert(rest[i - 1] == replies[i]);
                }
            }
            if n > 1 {
                assert(rest[n - 2] == replies[n - 1]);
            }
        }
    }
}

/// A storyboard records the LLM's replies in the order of the prompt types, up to and with the
/// first failure; a reply after that changes nothing. It has an error exactly where a reply
/// that it took is a failure.
pub proof fn storyboard_records_replies_up_to_first_failure(
    job: StoryboardJob,
    replies: Seq<Result<LlmResultView, AppErrorView>>,
)
    ensures
        ({
            let n = replies_taken(replies, prompt::storyboard_types().len()) as int;
            let end = storyboard_run(storyboard_start(job), replies);
            &&& n <= replies.len() && n <= prompt::storyboard_types().len()
            &&& end.prompts == Seq::new(
                n as nat,
                |i: int| reply_record(job, prompt::storyboard_types()[i], replies[i]),
            )
            &&& end.has_error == (n > 0 && replies[n - 1] is Err)
            &&& forall|i: int| 0 <= i < n - 1 ==> (#[trigger] replies[i]) is Ok
        }),
{
    let s = storyboard_start(job);
    let n = replies_taken(replies, prompt::storyboard_types().len()) as int;
    storyboard_run_from(s, replies);
    assert(storyboard_run(s, replies).prompts =~= Seq::new(
        n as nat,
        |i: int| reply_record(job, prompt::storyboard_types()[i], replies[i]),
    ));
}

/// The context of each prompt of a storyboard carries the contents of all earlier ones, under
/// their types and in their order.
pub proof fn context_carries_all_earlier_prompts(s: StoryboardState)
    requires
        storyboard_wf(s),
        !storyboard_finished(s),
    ensures
        ({
            let ctx = storyboard_context(s);
            &&& ctx.prompt_type == prompt::storyboard_types()[s.prompts.len() as int]
            &&& ctx.previous_prompts.len() == s.prompts.len()
            &&& forall|i: int|
                0 <= i < s.prompts.len() ==> (#[trigger] ctx.previous_prompts[i]).0
                    == s.prompts[i].prompt_type && Some(ctx.previous_prompts[i].1)
                    == s.prompts[i].prompt_content
        }),
{
    assert forall|i: int| 0 <= i < s.prompts.len() implies (#[trigger] storyboard_context(
        s,
    ).previous_prompts[i]).0 == s.prompts[i].prompt_type && Some(
        storyboard_context(s).previous_prompts[i].1,
    ) == s.prompts[i].prompt_content by {
        assert(s.previous[i].0 == prompt::storyboard_types()[i]);
    }
}

/// A storyboard at its beginning has no records and no earlier prompts, and goes on until a prompt
/// fails or all five are there.
pub proof fn storyboards_begin_empty_and_end(job: StoryboardJob, s: StoryboardState)
    ensures
        storyboard_start(job).job == job,
        storyboard_start(job).prompts.len() == 0,
        storyboard_start(job).previous.len() == 0,
        !storyboard_start(job).has_error,
        storyboard_finished(s) <==> s.has_error || s.previous.len() >= 5,
{
}

/// The context of the next prompt of a storyboard holds what the storyboard is generated from, and
/// the earlier prompts; its type is the next in the order.
pub proof fn contexts_hold_the_storyboard(s: StoryboardState)
    ensures
        ({
            let ctx = storyboard_context(s);
            &&& ctx.scene_index == s.job.scene_index
            &&& ctx.storyboard_index == Some(s.job.storyboard_index)
            &&& ctx.scene_description == s.job.scene_description
            &&& ctx.storyboard_content == Some(s.job.content)
            &&& ctx.video_prompt == Some(s.job.video_prompt)
            &&& ctx.multi_view_prompt == Some(s.job.multi_view_prompt)
            &&& ctx.previous_prompts == s.previous
            &&& ctx.prompt_type == prompt::storyboard_types()[s.previous.len() as int]
        }),
{
}

/// A reply adds one record: under the type, scene and storyboard of the context that it answers, and
/// with all that the reply says. A prompt becomes an earlier prompt of the next context under its
/// own type; a failure adds none, and is remembered.
pub proof fn replies_are_recorded_under_their_context(
    s: StoryboardState,
    reply: Result<LlmResultView, AppErrorView>,
)
    requires
        storyboard_wf(s),
        !storyboard_finished(s),
    ensures
        ({
            let ctx = storyboard_context(s);
            let next = storyboard_step(s, reply);
            let p = next.prompts.last();
            &&& next.job == s.job
            &&& next.prompts == s.prompts.push(p)
            &&& reply matches Ok(v) ==> next.previous == s.previous.push(
                (ctx.prompt_type, v.content),
            ) && !next.has_error
            &&& reply is Err ==> next.previous == s.previous && next.has_error
            &&& p.task_id == s.job.task_id
            &&& p.scene_index == ctx.scene_index
            &&& p.storyboard_index == ctx.storyboard_index
            &&& p.prompt_type == ctx.prompt_type
            &&& reply matches Ok(v) ==> {
                &&& p.status == prompt::PromptStatus::Success
                &&& p.prompt_content == Some(v.content)
                &&& p.error_message is None && p.llm_error_code is None
                &&& p.llm_response_snippet is None
                &&& p.llm_duration_ms == Some(v.metrics.duration_ms)
                &&& p.token_usage == v.metrics.token_usage
                &&& p.llm_retries == prompt::stored_retries(v.metrics.retries)
            }
            &&& reply matches Err(e) ==> {
                &&& p.status == prompt::PromptStatus::Failed
                &&& p.prompt_content is None && p.token_usage is None
                &&& p.error_message == Some(error::error_text(e))
                &&& e matches AppErrorView::Llm(l) ==> {
                    &&& p.llm_error_code == l.error_code
                    &&& p.llm_response_snippet == l.response_snippet
                    &&& p.llm_duration_ms == l.duration_ms
                    &&& l.retries matches Some(n) ==> p.llm_retries == prompt::stored_retries(n)
                    &&& l.retries is None ==> p.llm_retries is None
                }
                &&& !(e is Llm) ==> {
                    &&& p.llm_error_code is None && p.llm_response_snippet is None
                    &&& p.llm_duration_ms is None && p.llm_retries is None
                }
            }
        }),
{
}

/// The prompts that a storyboard's later prompts depend on are found in their contexts: the picture's
/// prompt in that of its composition, and both in that of their fusion, each with the content that
/// was recorded for it.
pub proof fn later_prompts_find_what_they_depend_on(s: StoryboardState)
    requires
        storyboard_wf(s),
        !storyboard_finished(s),
    ensures
        ({
            let ctx = storyboard_context(s);
            let picture = types::earlier_prompt(ctx.previous_prompts, PromptType::TextToImage);
            let composition = types::earlier_prompt(
                ctx.previous_prompts,
                PromptType::SpatialCompositionDrawing,
            );
            &&& ctx.prompt_type == PromptType::SpatialCompositionDrawing || ctx.prompt_type
                == PromptType::FusionImage ==> {
                &&& s.prompts.len() >= 1
                &&& s.prompts[0].prompt_type == PromptType::TextToImage
                &&& s.prompts[0].prompt_content == Some(picture)
            }
            &&& ctx.prompt_type == PromptType::FusionImage ==> {
                &&& s.prompts.len() >= 2
                &&& s.prompts[1].prompt_type == PromptType::SpatialCompositionDrawing
                &&& s.prompts[1].prompt_content == Some(composition)
            }
        }),
{
    let previous = s.previous;
    if previous.len() >= 1 {
        assert(previous[0].0 == PromptType::TextToImage);
        types::first_earlier_prompt_is_found(previous, PromptType::TextToImage, 0);
        assert(s.prompts[0].prompt_content == Some(previous[0].1));
    }
    if previous.len() >= 2 {
        assert(previous[1].0 == PromptType::SpatialCompositionDrawing);
        types::first_earlier_prompt_is_found(previous, PromptType::SpatialCompositionDrawing, 1);
        assert(s.prompts[1].prompt_content == Some(previous[1].1));
    }
}

} // verus!
