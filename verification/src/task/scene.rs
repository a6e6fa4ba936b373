//! The prompts of one scene: its own two, then those of its storyboards.

use vstd::prelude::*;

use crate::error::{self, AppError, AppErrorView};
use crate::llm::client;
use crate::llm::types::{LlmResult, LlmResultView, PromptContext, PromptContextView};
use crate::model::prompt::{self, MediaPrompt, MediaPromptView, PromptType};
use crate::model::script::{Scene, SceneView, Storyboard};
use crate::task::storyboard::{
    self,
    process_storyboard,
    StoryboardJob,
    StoryboardRun,
    StoryboardState,
};
use crate::text;

verus! {

/// What came of a scene.
#[derive(Debug)]
pub struct SceneResult {
    pub scene_index: i32,
    pub prompts: Vec<MediaPrompt>,
    pub video_prompt_content: String,
    pub multi_view_prompt_content: String,
    pub failed_storyboards: usize,
}

/// Where a scene stands.
#[verifier::ext_equal]
pub enum SceneStageView {
    /// Its video prompt is to come.
    Video,
    /// Its multi-view prompt is to come.
    MultiView { video: Seq<char> },
    /// A storyboard is under way.
    Storyboards {
        video: Seq<char>,
        multi_view: Seq<char>,
        index: int,
        current: StoryboardState,
    },
    /// Nothing is to come.
    Complete { video: Seq<char>, multi_view: Seq<char> },
}

/// How far a scene has come.
#[verifier::ext_equal]
pub struct SceneState {
    pub task_id: i64,
    pub scene: SceneView,
    /// The records of the scene's own prompts and of the storyboards that are finished.
    pub prompts: Seq<MediaPromptView>,
    /// How many of the finished storyboards have an error.
    pub failed_storyboards: int,
    pub stage: SceneStageView,
}

/// The description of a scene; empty where it has none.
pub open spec fn scene_description(scene: SceneView) -> Seq<char> {
    text::text_or_empty(scene.description)
}

/// What the prompts of storyboard number `index` are generated from.
pub open spec fn board_job(
    task_id: i64,
    scene: SceneView,
    video: Seq<char>,
    multi_view: Seq<char>,
    index: int,
) -> StoryboardJob {
    StoryboardJob {
        task_id,
        scene_index: scene.scene_index,
        storyboard_index: scene.storyboards[index].storyboard_index,
        content: text::text_or_empty(scene.storyboards[index].content),
        scene_description: scene_description(scene),
        video_prompt: video,
        multi_view_prompt: multi_view,
    }
}

/// The record of one of a scene's own prompts.
pub open spec fn scene_record(
    task_id: i64,
    scene_index: i32,
    t: PromptType,
    v: LlmResultView,
) -> MediaPromptView {
    prompt::success_record(
        task_id,
        scene_index,
        None,
        t,
        v.content,
        v.metrics.duration_ms,
        v.metrics.token_usage,
        v.metrics.retries,
    )
}

/// A scene at its beginning.
pub open spec fn scene_start(task_id: i64, scene: SceneView) -> SceneState {
    SceneState {
        task_id,
        scene,
        prompts: Seq::empty(),
        failed_storyboards: 0,
        stage: SceneStageView::Video,
    }
}

/// The stage of a scene that turns to storyboard number `index`, if there is one.
pub open spec fn board_stage(
    task_id: i64,
    scene: SceneView,
    video: Seq<char>,
    multi_view: Seq<char>,
    index: int,
) -> SceneStageView {
    if index < scene.storyboards.len() {
        SceneStageView::Storyboards {
            video,
            multi_view,
            index,
            current: storyboard::storyboard_start(
                board_job(task_id, scene, video, multi_view, index),
            ),
        }
    } else {
        SceneStageView::Complete { video, multi_view }
    }
}

/// What the next prompt of a scene is generated from, where one is to come.
pub open spec fn scene_context(s: SceneState) -> Option<PromptContextView> {
    match s.stage {
        SceneStageView::Video => Some(
            PromptContextView {
                prompt_type: PromptType::VideoPrompt,
                scene_index: s.scene.scene_index,
                storyboard_index: None,
                scene_description: scene_description(s.scene),
                storyboard_content: None,
                video_prompt: None,
                multi_view_prompt: None,
                previous_prompts: Seq::empty(),
            },
        ),
        SceneStageView::MultiView { video } => Some(
            PromptContextView {
                prompt_type: PromptType::MultiViewPrompt,
                scene_index: s.scene.scene_index,
                storyboard_index: None,
                scene_description: scene_description(s.scene),
                storyboard_content: None,
                video_prompt: Some(video),
                multi_view_prompt: None,
                previous_prompts: Seq::empty(),
            },
        ),
        SceneStageView::Storyboards { current, .. } => Some(
            storyboard::storyboard_context(current),
        ),
        SceneStageView::Complete { .. } => None,
    }
}

/// A scene after the LLM's reply for its next prompt, or the error that fails the scene.
pub open spec fn scene_step(
    s: SceneState,
    reply: Result<LlmResultView, AppErrorView>,
) -> Result<SceneState, AppErrorView> {
    match s.stage {
        SceneStageView::Video => match reply {
            Ok(v) => Ok(
                SceneState {
                    prompts: s.prompts.push(
                        scene_record(
                            s.task_id,
                            s.scene.scene_index,
                            PromptType::VideoPrompt,
                            v,
                        ),
                    ),
                    stage: SceneStageView::MultiView { video: v.content },
                    ..s
                },
            ),
            Err(e) => Err(e),
        },
        SceneStageView::MultiView { video } => match reply {
            Ok(v) => Ok(
                SceneState {
                    prompts: s.prompts.push(
                        scene_record(
                            s.task_id,
                            s.scene.scene_index,
                            PromptType::MultiViewPrompt,
                            v,
                        ),
                    ),
                    stage: board_stage(s.task_id, s.scene, video, v.content, 0),
                    ..s
                },
            ),
            Err(e) => Err(e),
        },
        SceneStageView::Storyboards { video, multi_view, index, current } => {
            let next = storyboard::storyboard_step(current, reply);
            if storyboard::storyboard_finished(next) {
                Ok(
                    SceneState {
                        prompts: s.prompts + next.prompts,
                        failed_storyboards: s.failed_storyboards + if next.has_error {
                            1int
                        } else {
                            0int
                        },
                        stage: board_stage(s.task_id, s.scene, video, multi_view, index + 1),
                        ..s
                    },
                )
            } else {
                Ok(
                    SceneState {
                        stage: SceneStageView::Storyboards {
                            video,
                            multi_view,
                            index,
                            current: next,
                        },
                        ..s
                    },
                )
            }
        },
        SceneStageView::Complete { .. } => Ok(s),
    }
}

/// What every scene keeps.
pub open spec fn scene_wf(s: SceneState) -> bool {
    match s.stage {
        SceneStageView::Video => s.prompts.len() == 0 && s.failed_storyboards == 0,
        SceneStageView::MultiView { .. } => s.prompts.len() == 1 && s.failed_storyboards == 0,
        SceneStageView::Storyboards { video, multi_view, index, current } => {
            &&& 0 <= s.failed_storyboards <= index < s.scene.storyboards.len()
            &&& s.prompts.len() >= 2
            &&& storyboard::storyboard_wf(current)
            &&& !storyboard::storyboard_finished(current)
            &&& current.job == board_job(s.task_id, s.scene, video, multi_view, index)
        },
        SceneStageView::Complete { .. } => {
            &&& 0 <= s.failed_storyboards <= s.scene.storyboards.len()
            &&& s.prompts.len() >= 2
        },
    }
}

#[derive(Debug)]
enum Stage {
    Video,
    MultiView { video: String },
    Storyboards { video: String, multi_view: String, index: usize, current: StoryboardRun },
    Complete { video: String, multi_view: String },
}

impl Stage {
    spec fn view(&self) -> SceneStageView {
        match *self {
            Stage::Video => SceneStageView::Video,
            Stage::MultiView { video } => SceneStageView::MultiView { video: video@ },
            Stage::Storyboards { video, multi_view, index, current } =>
                SceneStageView::Storyboards {
                video: video@,
                multi_view: multi_view@,
                index: index as int,
                current: current@,
            },
            Stage::Complete { video, multi_view } => SceneStageView::Complete {
                video: video@,
                multi_view: multi_view@,
            },
        }
    }
}

/// A scene whose prompts are being generated.
#[derive(Debug)]
pub struct SceneRun {
    task_id: i64,
    scene: Scene,
    prompts: Vec<MediaPrompt>,
    failed_storyboards: usize,
    stage: Stage,
}

impl View for SceneRun {
    type V = SceneState;

    closed spec fn view(&self) -> SceneState {
        SceneState {
            task_id: self.task_id,
            scene: self.scene@,
            prompts: prompt::prompt_views(self.prompts@),
            failed_storyboards: self.failed_storyboards as int,
            stage: self.stage@,
        }
    }
}

impl SceneRun {
    /// Begins with a scene.
    pub fn start(task_id: i64, scene: Scene) -> (r: Self)
        ensures
            r@ == scene_start(task_id, scene@),
            scene_wf(r@),
    {
        let run = SceneRun {
            task_id,
            scene,
            prompts: Vec::new(),
            failed_storyboards: 0,
            stage: Stage::Video,
        };
        assert(run@.prompts =~= Seq::<MediaPromptView>::empty());
        run
    }

    /// What the next prompt is generated from; none where the scene is complete.
    pub fn next_context(&self) -> (r: Option<PromptContext>)
        requires
            scene_wf(self@),
        ensures
            match r {
                Some(ctx) => scene_context(self@) == Some(ctx@),
                None => scene_context(self@) is None,
            },
    {
        let description: String = text::copy_or_empty(&self.scene.description);
        let previous: Vec<(PromptType, String)> = Vec::new();
        assert(crate::llm::types::previous_views(previous@) =~= Seq::empty());
        match &self.stage {
            Stage::Video => Some(
                PromptContext {
                    prompt_type: PromptType::VideoPrompt,
                    scene_index: self.scene.scene_index,
                    storyboard_index: None,
                    scene_description: description,
                    storyboard_content: None,
                    video_prompt: None,
                    multi_view_prompt: None,
                    previous_prompts: previous,
                },
            ),
            Stage::MultiView { video } => Some(
                PromptContext {
                    prompt_type: PromptType::MultiViewPrompt,
                    scene_index: self.scene.scene_index,
                    storyboard_index: None,
                    scene_description: description,
                    storyboard_content: None,
                    video_prompt: Some(video.clone()),
                    multi_view_prompt: None,
                    previous_prompts: previous,
                },
            ),
            Stage::Storyboards { current, .. } => Some(current.next_context()),
            Stage::Complete { .. } => None,
        }
    }

    /// What came of a scene that is complete; the scene itself where it is not.
    pub fn into_result(self) -> (r: Result<SceneResult, SceneRun>)
        ensures
            match self@.stage {
                SceneStageView::Complete { video, multi_view } => {
                    &&& r matches Ok(v)
                    &&& v.scene_index == self@.scene.scene_index
                    &&& prompt::prompt_views(v.prompts@) == self@.prompts
                    &&& v.video_prompt_content@ == video
                    &&& v.multi_view_prompt_content@ == multi_view
                    &&& v.failed_storyboards == self@.failed_storyboards
                },
                _ => r == Err::<SceneResult, SceneRun>(self),
            },
    {
        match self.stage {
            Stage::Complete { video, multi_view } => Ok(
                SceneResult {
                    scene_index: self.scene.scene_index,
                    prompts: self.prompts,
                    video_prompt_content: video,
                    multi_view_prompt_content: multi_view,
                    failed_storyboards: self.failed_storyboards,
                },
            ),
            stage => Err(
                SceneRun {
                    task_id: self.task_id,
                    scene: self.scene,
                    prompts: self.prompts,
                    failed_storyboards: self.failed_storyboards,
                    stage,
                },
            ),
        }
    }
}

/// The stage of a scene that turns to storyboard number `index`, if there is one.
fn enter_board(
    task_id: i64,
    scene: &Scene,
    video: String,
    multi_view: String,
    index: usize,
) -> (r: Stage)
    ensures
        r@ == board_stage(task_id, scene@, video@, multi_view@, index as int),
        r@ matches SceneStageView::Storyboards { current, .. } ==> storyboard::storyboard_wf(
            current,
        ) && !storyboard::storyboard_finished(current),
{
    if index < scene.storyboards.len() {
        let description: String = text::copy_or_empty(&scene.description);
        let board: &Storyboard = &scene.storyboards[index];
        assert(scene@.storyboards[index as int] == board@);
        let current = StoryboardRun::start(
            task_id,
            scene.scene_index,
            board,
            description.as_str(),
            video.as_str(),
            multi_view.as_str(),
        );
        Stage::Storyboards { video, multi_view, index, current }
    } else {
        Stage::Complete { video, multi_view }
    }
}

/// The record of one of a scene's own prompts.
fn own_record(task_id: i64, scene_index: i32, t: PromptType, content: String, v: &LlmResult) -> (r:
    MediaPrompt)
    requires
        content@ == v@.content,
    ensures
        r@ == scene_record(task_id, scene_index, t, v@),
{
    MediaPrompt::success(
        task_id,
        scene_index,
        None,
        t,
        content,
        v.metrics.duration_ms,
        v.metrics.token_usage,
        v.metrics.retries,
    )
}

/// Takes the LLM's reply for the next prompt of a scene. A failure of one of the scene's own
/// prompts fails the scene; a failure within a storyboard only ends that storyboard.
pub fn process_scene(run: SceneRun, reply: Result<LlmResult, AppError>) -> (r: Result<
    SceneRun,
    AppError,
>)
    requires
        scene_wf(run@),
        scene_context(run@) is Some,
    ensures
        match r {
            Ok(next) => scene_step(run@, client::reply_view(reply)) == Ok::<
                SceneState,
                AppErrorView,
            >(next@) && scene_wf(next@),
            Err(e) => scene_step(run@, client::reply_view(reply)) == Err::<
                SceneState,
                AppErrorView,
            >(e@),
        },
{
    let ghost before = run@;
    let ghost told = client::reply_view(reply);
    let task_id: i64 = run.task_id;
    let scene: Scene = run.scene;
    let mut prompts: Vec<MediaPrompt> = run.prompts;
    let mut failed_storyboards: usize = run.failed_storyboards;
    assert(before.scene.storyboards.len() == scene.storyboards.len());
    let stage: Stage = match run.stage {
        Stage::Video => match reply {
            Ok(v) => {
                prompts.push(
                    own_record(
                        task_id,
                        scene.scene_index,
                        PromptType::VideoPrompt,
                        v.content.clone(),
                        &v,
                    ),
                );
                Stage::MultiView { video: v.content }
            },
            Err(e) => {
                return Err(e);
            },
        },
        Stage::MultiView { video } => match reply {
            Ok(v) => {
                prompts.push(
                    own_record(
                        task_id,
                        scene.scene_index,
                        PromptType::MultiViewPrompt,
                        v.content.clone(),
                        &v,
                    ),
                );
                enter_board(task_id, &scene, video, v.content, 0)
            },
            Err(e) => {
                return Err(e);
            },
        },
        Stage::Storyboards { video, multi_view, index, current } => {
            let next = process_storyboard(current, reply);
            if next.finished() {
                let mut done = next.into_result();
                if done.has_error {
                    failed_storyboards += 1;
                }
                let ghost earlier = prompts@;
                let ghost added = done.prompts@;
                prompts.append(&mut done.prompts);
                assert(prompt::prompt_views(prompts@) =~= prompt::prompt_views(earlier)
                    + prompt::prompt_views(added));
                enter_board(task_id, &scene, video, multi_view, index + 1)
            } else {
                Stage::Storyboards { video, multi_view, index, current: next }
            }
        },
        Stage::Complete { video, multi_view } => Stage::Complete { video, multi_view },
    };
    let next = SceneRun { task_id, scene, prompts, failed_storyboards, stage };
    proof {
        let stepped = scene_step(before, told)->Ok_0;
        assert(next@.prompts =~= stepped.prompts);
        assert(next@ == stepped);
    }
    Ok(next)
}

/// A scene after a list of replies, or the error that failed it. Replies after the end are not
/// taken.
pub open spec fn scene_run(
    s: SceneState,
    replies: Seq<Result<LlmResultView, AppErrorView>>,
) -> Result<SceneState, AppErrorView>
    decreases replies.len(),
{
    if replies.len() == 0 || scene_context(s) is None {
        Ok(s)
    } else {
        match scene_step(s, replies[0]) {
            Ok(next) => scene_run(next, replies.drop_first()),
            Err(e) => Err(e),
        }
    }
}

/// The records of a scene so far, those of the storyboard under way included.
pub open spec fn all_records(s: SceneState) -> Seq<MediaPromptView> {
    match s.stage {
        SceneStageView::Storyboards { current, .. } => s.prompts + current.prompts,
        _ => s.prompts,
    }
}

/// The records of the storyboards from number `index` on, by the replies of the LLM to them:
/// each storyboard takes the replies up to its first failure, and the next one goes on with the
/// reply after that.
pub open spec fn board_records(
    task_id: i64,
    scene: SceneView,
    video: Seq<char>,
    multi_view: Seq<char>,
    index: int,
    replies: Seq<Result<LlmResultView, AppErrorView>>,
) -> Seq<MediaPromptView>
    decreases scene.storyboards.len() - index,
{
    if index < 0 || index >= scene.storyboards.len() {
        Seq::empty()
    } else {
        let n = storyboard::replies_taken(replies, prompt::storyboard_types().len());
        Seq::new(
            n,
            |i: int|
                storyboard::reply_record(
                    board_job(task_id, scene, video, multi_view, index),
                    prompt::storyboard_types()[i],
                    replies[i],
                ),
        ) + board_records(task_id, scene, video, multi_view, index + 1, replies.skip(n as int))
    }
}

/// How many of the storyboards from number `index` on have an error, by the replies to them.
pub open spec fn board_failures(
    scene: SceneView,
    index: int,
    replies: Seq<Result<LlmResultView, AppErrorView>>,
) -> int
    decreases scene.storyboards.len() - index,
{
    if index < 0 || index >= scene.storyboards.len() {
        0
    } else {
        let n = storyboard::replies_taken(replies, prompt::storyboard_types().len()) as int;
        (if n > 0 && replies[n - 1] is Err {
            1int
        } else {
            0int
        }) + board_failures(scene, index + 1, replies.skip(n))
    }
}

/// How many replies the storyboards from number `index` on take.
pub open spec fn boards_taken(
    scene: SceneView,
    index: int,
    replies: Seq<Result<LlmResultView, AppErrorView>>,
) -> nat
    decreases scene.storyboards.len() - index,
{
    if index < 0 || index >= scene.storyboards.len() {
        0
    } else {
        let n = storyboard::replies_taken(replies, prompt::storyboard_types().len());
        n + boards_taken(scene, index + 1, replies.skip(n as int))
    }
}

/// The records that a scene still adds, by the replies to come, from its multi-view prompt on.
pub open spec fn multi_view_records(
    task_id: i64,
    scene: SceneView,
    video: Seq<char>,
    replies: Seq<Result<LlmResultView, AppErrorView>>,
) -> Seq<MediaPromptView> {
    if replies.len() > 0 && replies[0] is Ok {
        let v = replies[0]->Ok_0;
        seq![scene_record(task_id, scene.scene_index, PromptType::MultiViewPrompt, v)]
            + board_records(task_id, scene, video, v.content, 0, replies.drop_first())
    } else {
        Seq::empty()
    }
}

/// The records that a scene still adds, by the replies to come.
pub open spec fn records_to_come(
    s: SceneState,
    replies: Seq<Result<LlmResultView, AppErrorView>>,
) -> Seq<MediaPromptView> {
    match s.stage {
        SceneStageView::Video => if replies.len() > 0 && replies[0] is Ok {
            let v = replies[0]->Ok_0;
            seq![scene_record(s.task_id, s.scene.scene_index, PromptType::VideoPrompt, v)]
                + multi_view_records(s.task_id, s.scene, v.content, replies.drop_first())
        } else {
            Seq::empty()
        },
        SceneStageView::MultiView { video } => multi_view_records(
            s.task_id,
            s.scene,
            video,
            replies,
        ),
        SceneStageView::Storyboards { video, multi_view, index, current } => {
            let n = open_board_taken(current, replies);
            open_board_records(current, replies) + board_records(
                s.task_id,
                s.scene,
                video,
                multi_view,
                index + 1,
                replies.skip(n as int),
            )
        },
        SceneStageView::Complete { .. } => Seq::empty(),
    }
}

/// How many replies the storyboard under way still takes.
pub open spec fn open_board_taken(
    current: StoryboardState,
    replies: Seq<Result<LlmResultView, AppErrorView>>,
) -> nat {
    storyboard::replies_taken(
        replies,
        (prompt::storyboard_types().len() - current.previous.len()) as nat,
    )
}

/// The records that the storyboard under way still adds.
pub open spec fn open_board_records(
    current: StoryboardState,
    replies: Seq<Result<LlmResultView, AppErrorView>>,
) -> Seq<MediaPromptView> {
    Seq::new(
        open_board_taken(current, replies),
        |i: int|
            storyboard::reply_record(
                current.job,
                prompt::storyboard_types()[current.previous.len() + i],
                replies[i],
            ),
    )
}

/// How many of the replies to come a scene takes.
pub open spec fn replies_to_come(
    s: SceneState,
    replies: Seq<Result<LlmResultView, AppErrorView>>,
) -> nat {
    if replies.len() == 0 {
        0
    } else {
        match s.stage {
            SceneStageView::Video => if replies.len() > 1 {
                2 + boards_taken(s.scene, 0, replies.skip(2))
            } else {
                1
            },
            SceneStageView::MultiView { .. } => 1 + boards_taken(s.scene, 0, replies.skip(1)),
            SceneStageView::Storyboards { index, current, .. } => {
                let n = open_board_taken(current, replies);
                n + boards_taken(s.scene, index + 1, replies.skip(n as int))
            },
            SceneStageView::Complete { .. } => 0,
        }
    }
}

/// How many storyboards with an error a scene still counts, by the replies to come.
pub open spec fn failures_to_come(
    s: SceneState,
    replies: Seq<Result<LlmResultView, AppErrorView>>,
) -> int {
    match s.stage {
        SceneStageView::Video => if replies.len() > 1 {
            board_failures(s.scene, 0, replies.skip(2))
        } else {
            0
        },
        SceneStageView::MultiView { .. } => if replies.len() > 0 {
            board_failures(s.scene, 0, replies.skip(1))
        } else {
            0
        },
        SceneStageView::Storyboards { index, current, .. } => {
            let n = open_board_taken(current, replies) as int;
            (if n > 0 && replies[n - 1] is Err {
                1int
            } else {
                0int
            }) + board_failures(s.scene, index + 1, replies.skip(n))
        },
        SceneStageView::Complete { .. } => 0,
    }
}

proof fn boards_without_replies(
    task_id: i64,
    scene: SceneView,
    video: Seq<char>,
    multi_view: Seq<char>,
    index: int,
    replies: Seq<Result<LlmResultView, AppErrorView>>,
)
    requires
        replies.len() == 0,
    ensures
        board_records(task_id, scene, video, multi_view, index, replies).len() == 0,
        board_failures(scene, index, replies) == 0,
        boards_taken(scene, index, replies) == 0,
    decreases scene.storyboards.len() - index,
{
    if 0 <= index < scene.storyboards.len() {
        assert(replies.skip(0) =~= replies);
        boards_without_replies(task_id, scene, video, multi_view, index + 1, replies);
    }
}

/// Without further replies a scene adds nothing.
pub proof fn nothing_comes_without_replies(
    s: SceneState,
    replies: Seq<Result<LlmResultView, AppErrorView>>,
)
    requires
        replies.len() == 0,
    ensures
        records_to_come(s, replies) == Seq::<MediaPromptView>::empty(),
        failures_to_come(s, replies) == 0,
        replies_to_come(s, replies) == 0,
{
    if let SceneStageView::Storyboards { video, multi_view, index, .. } = s.stage {
        assert(replies.skip(0) =~= replies);
        boards_without_replies(s.task_id, s.scene, video, multi_view, index + 1, replies);
    }
}

proof fn boards_taken_bounds(
    scene: SceneView,
    index: int,
    replies: Seq<Result<LlmResultView, AppErrorView>>,
)
    ensures
        boards_taken(scene, index, replies) <= replies.len(),
    decreases scene.storyboards.len() - index,
{
    if 0 <= index < scene.storyboards.len() {
        let n = storyboard::replies_taken(replies, prompt::storyboard_types().len());
        storyboard::replies_taken_bounds(replies, prompt::storyboard_types().len());
        boards_taken_bounds(scene, index + 1, replies.skip(n as int));
    }
}

/// A scene takes no more replies than come.
pub proof fn replies_to_come_bounds(
    s: SceneState,
    replies: Seq<Result<LlmResultView, AppErrorView>>,
)
    ensures
        replies_to_come(s, replies) <= replies.len(),
{
    match s.stage {
        SceneStageView::Video => if replies.len() > 1 {
            boards_taken_bounds(s.scene, 0, replies.skip(2));
        },
        SceneStageView::MultiView { .. } => if replies.len() > 0 {
            boards_taken_bounds(s.scene, 0, replies.skip(1));
        },
        SceneStageView::Storyboards { index, current, .. } => {
            let limit = (prompt::storyboard_types().len() - current.previous.len()) as nat;
            storyboard::replies_taken_bounds(replies, limit);
            boards_taken_bounds(
                s.scene,
                index + 1,
                replies.skip(open_board_taken(current, replies) as int),
            );
        },
        SceneStageView::Complete { .. } => {},
    }
}

/// A scene that turns to its storyboards adds the records of these.
proof fn board_stage_adds_boards(
    s: SceneState,
    index: int,
    video: Seq<char>,
    multi_view: Seq<char>,
    replies: Seq<Result<LlmResultView, AppErrorView>>,
)
    requires
        0 <= index <= s.scene.storyboards.len(),
        s.stage == board_stage(s.task_id, s.scene, video, multi_view, index),
    ensures
        records_to_come(s, replies) == board_records(
            s.task_id,
            s.scene,
            video,
            multi_view,
            index,
            replies,
        ),
        failures_to_come(s, replies) == board_failures(s.scene, index, replies),
        replies_to_come(s, replies) == boards_taken(s.scene, index, replies),
        all_records(s) == s.prompts,
{
    assert(all_records(s) =~= s.prompts);
    if index < s.scene.storyboards.len() {
        let job = board_job(s.task_id, s.scene, video, multi_view, index);
        let start = storyboard::storyboard_start(job);
        let n = storyboard::replies_taken(replies, prompt::storyboard_types().len());
        assert(open_board_records(start, replies) =~= Seq::new(
            n,
            |i: int| storyboard::reply_record(job, prompt::storyboard_types()[i], replies[i]),
        ));
        if replies.len() == 0 {
            boards_without_replies(s.task_id, s.scene, video, multi_view, index, replies);
        }
    }
}

/// Each reply that does not fail a scene moves one record from those to come to those that are
/// there, and changes nothing else of the total.
pub proof fn scene_step_keeps_total(
    s: SceneState,
    replies: Seq<Result<LlmResultView, AppErrorView>>,
)
    requires
        scene_wf(s),
        scene_context(s) is Some,
        replies.len() > 0,
        scene_step(s, replies[0]) is Ok,
    ensures
        ({
            let next = scene_step(s, replies[0])->Ok_0;
            let rest = replies.drop_first();
            &&& scene_wf(next)
            &&& next.task_id == s.task_id && next.scene == s.scene
            &&& all_records(next) + records_to_come(next, rest) == all_records(s)
                + records_to_come(s, replies)
            &&& next.failed_storyboards + failures_to_come(next, rest) == s.failed_storyboards
                + failures_to_come(s, replies)
            &&& replies_to_come(s, replies) == 1 + replies_to_come(next, rest)
        }),
{
    let next = scene_step(s, replies[0])->Ok_0;
    let rest = replies.drop_first();
    let now = all_records(s) + records_to_come(s, replies);
    let then_ = all_records(next) + records_to_come(next, rest);
    match s.stage {
        SceneStageView::Video => {
            if rest.len() > 0 {
                assert(replies.skip(2) =~= rest.skip(1));
            }
            assert(then_ =~= now);
        },
        SceneStageView::MultiView { video } => {
            assert(replies.skip(1) =~= rest);
            board_stage_adds_boards(next, 0, video, replies[0]->Ok_0.content, rest);
            assert(then_ =~= now);
        },
        SceneStageView::Storyboards { video, multi_view, index, current } => {
            let limit = (prompt::storyboard_types().len() - current.previous.len()) as nat;
            let n = open_board_taken(current, replies) as int;
            let stepped = storyboard::storyboard_step(current, replies[0]);
            let told = open_board_records(current, replies);
            storyboard::storyboard_step_keeps_wf(current, replies[0]);
            storyboard::replies_taken_bounds(replies, limit);
            assert(told[0] == stepped.prompts.last());
            assert(stepped.prompts =~= current.prompts + seq![told[0]]);
            if storyboard::storyboard_finished(stepped) {
                assert(n == 1) by {
                    reveal_with_fuel(storyboard::replies_taken, 2);
                }
                assert(replies.skip(1) =~= rest);
                assert(told =~= seq![told[0]]);
                board_stage_adds_boards(next, index + 1, video, multi_view, rest);
                assert(then_ =~= now);
            } else {
                assert(rest.skip(n - 1) =~= replies.skip(n));
                assert(told =~= seq![told[0]] + open_board_records(stepped, rest));
                assert(then_ =~= now);
                if n > 1 {
                    assert(rest[n - 2] == replies[n - 1]);
                }
                if rest.len() == 0 {
                    boards_without_replies(
                        s.task_id,
                        s.scene,
                        video,
                        multi_view,
                        index + 1,
                        replies.skip(n),
                    );
                }
            }
        },
        SceneStageView::Complete { .. } => {},
    }
}

proof fn scene_run_totals(s: SceneState, replies: Seq<Result<LlmResultView, AppErrorView>>)
    requires
        scene_wf(s),
    ensures
        s.stage is Storyboards || s.stage is Complete ==> scene_run(s, replies) is Ok,
        scene_run(s, replies) matches Ok(end) ==> scene_wf(end) && all_records(end) == all_records(
            s,
        ) + records_to_come(s, replies) && end.failed_storyboards == s.failed_storyboards
            + failures_to_come(s, replies),
    decreases replies.len(),
{
    if replies.len() == 0 {
        nothing_comes_without_replies(s, replies);
        assert(all_records(s) + records_to_come(s, replies) =~= all_records(s));
    } else if scene_context(s) is None {
        assert(all_records(s) + records_to_come(s, replies) =~= all_records(s));
    } else if scene_step(s, replies[0]) is Ok {
        scene_step_keeps_total(s, replies);
        scene_run_totals(scene_step(s, replies[0])->Ok_0, replies.drop_first());
    }
}

/// A scene whose own two prompts were generated never fails. Its records are those of these two,
/// then those of each storyboard in order, each up to its first failure; a failure in one
/// storyboard leaves the others alone. It counts the storyboards with an error.
pub proof fn storyboard_failures_do_not_fail_the_scene(
    task_id: i64,
    scene: SceneView,
    video: LlmResultView,
    multi_view: LlmResultView,
    replies: Seq<Result<LlmResultView, AppErrorView>>,
)
    ensures
        scene_run(
            scene_start(task_id, scene),
            seq![Ok(video), Ok(multi_view)] + replies,
        ) matches Ok(end) && ({
            &&& all_records(end) == seq![
                scene_record(task_id, scene.scene_index, PromptType::VideoPrompt, video),
                scene_record(task_id, scene.scene_index, PromptType::MultiViewPrompt, multi_view),
            ] + board_records(task_id, scene, video.content, multi_view.content, 0, replies)
            &&& end.failed_storyboards == board_failures(scene, 0, replies)
            &&& scene_wf(end)
        }),
{
    let start = scene_start(task_id, scene);
    let all = seq![Ok(video), Ok(multi_view)] + replies;
    let own = seq![
        scene_record(task_id, scene.scene_index, PromptType::VideoPrompt, video),
        scene_record(task_id, scene.scene_index, PromptType::MultiViewPrompt, multi_view),
    ];
    let boards = board_records(task_id, scene, video.content, multi_view.content, 0, replies);
    assert(all.drop_first().drop_first() =~= replies);
    assert(all.skip(2) =~= replies);
    assert(all.drop_first()[0] == all[1]);
    reveal_with_fuel(scene_run, 3);
    let second = scene_step(start, all[0])->Ok_0;
    let third = scene_step(second, all[1])->Ok_0;
    assert(scene_run(start, all) == scene_run(third, replies));
    scene_run_totals(third, replies);
    scene_run_totals(start, all);
    assert(all_records(start) + records_to_come(start, all) =~= own + boards);
}

/// A scene fails exactly where one of its own two prompts fails, and with the error of that
/// prompt.
pub proof fn scene_fails_with_its_own_prompts(
    task_id: i64,
    scene: SceneView,
    replies: Seq<Result<LlmResultView, AppErrorView>>,
    e: AppErrorView,
)
    ensures
        scene_run(scene_start(task_id, scene), replies) == Err::<SceneState, AppErrorView>(e) <==> {
            ||| replies.len() > 0 && replies[0] == Err::<LlmResultView, AppErrorView>(e)
            ||| replies.len() > 1 && replies[0] is Ok && replies[1] == Err::<
                LlmResultView,
                AppErrorView,
            >(e)
        },
{
    reveal_with_fuel(scene_run, 3);
    let start = scene_start(task_id, scene);
    if replies.len() > 0 && replies[0] is Ok {
        let rest = replies.drop_first();
        if rest.len() > 0 {
            assert(rest[0] == replies[1]);
            if rest[0] is Ok {
                let last = rest.drop_first();
                storyboard_failures_do_not_fail_the_scene(
                    task_id,
                    scene,
                    replies[0]->Ok_0,
                    replies[1]->Ok_0,
                    last,
                );
                assert(seq![
                    Ok::<LlmResultView, AppErrorView>(replies[0]->Ok_0),
                    Ok(replies[1]->Ok_0),
                ] + last =~= replies);
            }
        }
    }
}

/// How many prompts a scene needs where none fails.
pub open spec fn scene_prompts(scene: SceneView) -> int {
    2 + prompt::storyboard_types().len() as int * scene.storyboards.len()
}

/// How many prompts a scene still needs where none fails.
pub open spec fn prompts_to_come(s: SceneState) -> int {
    let each = prompt::storyboard_types().len() as int;
    match s.stage {
        SceneStageView::Video => scene_prompts(s.scene),
        SceneStageView::MultiView { .. } => scene_prompts(s.scene) - 1,
        SceneStageView::Storyboards { index, current, .. } => each - current.previous.len() + each
            * (s.scene.storyboards.len() - index - 1),
        SceneStageView::Complete { .. } => 0,
    }
}

/// Each reply that does not fail a scene brings it nearer to its end: by one prompt where the reply
/// is a prompt, by more where it ends a storyboard early.
pub proof fn each_reply_brings_the_end_nearer(
    s: SceneState,
    reply: Result<LlmResultView, AppErrorView>,
)
    requires
        scene_wf(s),
        scene_context(s) is Some,
    ensures
        prompts_to_come(s) > 0,
        reply is Ok ==> scene_step(s, reply) is Ok,
        scene_step(s, reply) matches Ok(next) ==> {
            &&& scene_wf(next)
            &&& next.task_id == s.task_id
            &&& 0 <= prompts_to_come(next) < prompts_to_come(s)
            &&& reply is Ok ==> prompts_to_come(next) == prompts_to_come(s) - 1
            &&& scene_context(next) is None <==> prompts_to_come(next) == 0
        },
{
    let each = prompt::storyboard_types().len() as int;
    let boards = s.scene.storyboards.len() as int;
    assert(each == 5);
    assert(each * boards == 5 * boards);
    if let SceneStageView::Storyboards { index, current, .. } = s.stage {
        storyboard::storyboard_step_keeps_wf(current, reply);
        assert(each * (boards - index - 1) == 5 * (boards - index - 1));
        assert(each * (boards - (index + 1) - 1) == 5 * (boards - index - 2));
    } else {
        assert(each * (boards - 0 - 1) == 5 * (boards - 1));
    }
}

/// A scene begins with nothing but itself, and its first context is for its video prompt, from its
/// description.
pub proof fn scenes_begin_with_their_video_prompt(task_id: i64, scene: SceneView)
    ensures
        ({
            let s = scene_start(task_id, scene);
            &&& s.task_id == task_id && s.scene == scene
            &&& s.prompts.len() == 0 && s.failed_storyboards == 0
            &&& scene_context(s) matches Some(ctx) && {
                &&& ctx.prompt_type == PromptType::VideoPrompt
                &&& ctx.scene_index == scene.scene_index
                &&& ctx.storyboard_index is None
                &&& scene.description matches Some(d) ==> ctx.scene_description == d
                &&& scene.description is None ==> ctx.scene_description.len() == 0
                &&& ctx.storyboard_content is None
                &&& ctx.video_prompt is None && ctx.multi_view_prompt is None
                &&& ctx.previous_prompts.len() == 0
            }
        }),
{
}

/// Once a scene's video prompt is there, its next context is for its multi-view prompt, from its
/// description and the whole of that video prompt.
pub proof fn multi_view_prompts_follow_the_video_prompt(
    task_id: i64,
    scene: SceneView,
    video: LlmResultView,
)
    ensures
        scene_step(scene_start(task_id, scene), Ok(video)) matches Ok(s) && {
            &&& s.task_id == task_id && s.scene == scene
            &&& scene_context(s) matches Some(ctx) && {
                &&& ctx.prompt_type == PromptType::MultiViewPrompt
                &&& ctx.scene_index == scene.scene_index
                &&& ctx.storyboard_index is None
                &&& scene.description matches Some(d) ==> ctx.scene_description == d
                &&& scene.description is None ==> ctx.scene_description.len() == 0
                &&& ctx.storyboard_content is None
                &&& ctx.video_prompt == Some(video.content)
                &&& ctx.multi_view_prompt is None
                &&& ctx.previous_prompts.len() == 0
            }
        },
{
}

/// What a scene whose own two prompts are there keeps, whatever its storyboards come to.
proof fn own_prompts_stay(
    s: SceneState,
    video: Seq<char>,
    multi_view: Seq<char>,
    replies: Seq<Result<LlmResultView, AppErrorView>>,
)
    requires
        scene_wf(s),
        s.prompts.len() >= 2,
        s.stage matches SceneStageView::Storyboards { video: v, multi_view: m, .. } ==> v == video
            && m == multi_view,
        s.stage matches SceneStageView::Complete { video: v, multi_view: m } ==> v == video && m
            == multi_view,
        s.stage is Storyboards || s.stage is Complete,
    ensures
        scene_run(s, replies) matches Ok(end) && {
            &&& scene_wf(end)
            &&& end.task_id == s.task_id && end.scene == s.scene
            &&& end.prompts.len() >= 2
            &&& end.prompts[0] == s.prompts[0] && end.prompts[1] == s.prompts[1]
            &&& end.stage is Storyboards || end.stage is Complete
            &&& end.stage matches SceneStageView::Storyboards { video: v, multi_view: m, .. } ==> v
                == video && m == multi_view
            &&& end.stage matches SceneStageView::Complete { video: v, multi_view: m } ==> v
                == video && m == multi_view
        },
    decreases replies.len(),
{
    if replies.len() > 0 && scene_context(s) is Some {
        scene_step_keeps_total(s, replies);
        own_prompts_stay(
            scene_step(s, replies[0])->Ok_0,
            video,
            multi_view,
            replies.drop_first(),
        );
    }
}

proof fn own_prompts_come_first(
    task_id: i64,
    scene: SceneView,
    video: LlmResultView,
    multi_view: LlmResultView,
    replies: Seq<Result<LlmResultView, AppErrorView>>,
)
    ensures
        ({
            let second = scene_step(scene_start(task_id, scene), Ok(video))->Ok_0;
            let third = scene_step(second, Ok(multi_view))->Ok_0;
            &&& scene_step(scene_start(task_id, scene), Ok(video)) is Ok
            &&& scene_step(second, Ok(multi_view)) is Ok
            &&& scene_wf(third)
            &&& third.task_id == task_id && third.scene == scene
            &&& third.prompts.len() == 2
            &&& third.stage is Storyboards || third.stage is Complete
            &&& third.stage matches SceneStageView::Storyboards { video: v, multi_view: m, .. }
                ==> v == video.content && m == multi_view.content
            &&& third.stage matches SceneStageView::Complete { video: v, multi_view: m } ==> v
                == video.content && m == multi_view.content
            &&& scene_run(
                scene_start(task_id, scene),
                seq![Ok(video), Ok(multi_view)] + replies,
            ) == scene_run(third, replies)
        }),
{
    let start = scene_start(task_id, scene);
    let all = seq![Ok::<LlmResultView, AppErrorView>(video), Ok(multi_view)] + replies;
    assert(all.drop_first().drop_first() =~= replies);
    assert(all.drop_first()[0] == all[1]);
    reveal_with_fuel(scene_run, 3);
}

/// The first two records of a scene whose own prompts were generated are those of its video prompt
/// and of its multi-view prompt, each under its own type, for the scene and no storyboard, with the
/// whole prompt and what was measured of its call.
pub proof fn own_prompts_are_recorded_under_their_types(
    task_id: i64,
    scene: SceneView,
    video: LlmResultView,
    multi_view: LlmResultView,
    replies: Seq<Result<LlmResultView, AppErrorView>>,
)
    ensures
        scene_run(
            scene_start(task_id, scene),
            seq![Ok(video), Ok(multi_view)] + replies,
        ) matches Ok(end) && ({
            let a = end.prompts[0];
            let b = end.prompts[1];
            &&& end.prompts.len() >= 2
            &&& a.task_id == task_id
            &&& a.scene_index == scene.scene_index
            &&& a.storyboard_index is None
            &&& a.prompt_type == PromptType::VideoPrompt
            &&& a.status == prompt::PromptStatus::Success
            &&& a.prompt_content == Some(video.content)
            &&& a.error_message is None && a.llm_error_code is None
            &&& a.llm_response_snippet is None
            &&& a.llm_duration_ms == Some(video.metrics.duration_ms)
            &&& a.token_usage == video.metrics.token_usage
            &&& a.llm_retries == prompt::stored_retries(video.metrics.retries)
            &&& b.task_id == task_id
            &&& b.scene_index == scene.scene_index
            &&& b.storyboard_index is None
            &&& b.prompt_type == PromptType::MultiViewPrompt
            &&& b.status == prompt::PromptStatus::Success
            &&& b.prompt_content == Some(multi_view.content)
            &&& b.error_message is None && b.llm_error_code is None
            &&& b.llm_response_snippet is None
            &&& b.llm_duration_ms == Some(multi_view.metrics.duration_ms)
            &&& b.token_usage == multi_view.metrics.token_usage
            &&& b.llm_retries == prompt::stored_retries(multi_view.metrics.retries)
        }),
{
    own_prompts_come_first(task_id, scene, video, multi_view, replies);
    let second = scene_step(scene_start(task_id, scene), Ok(video))->Ok_0;
    let third = scene_step(second, Ok(multi_view))->Ok_0;
    own_prompts_stay(third, video.content, multi_view.content, replies);
}

/// Every context for a storyboard of a scene whose own prompts were generated holds the whole of
/// both, the scene's description, and the number and content of one storyboard of the scene.
pub proof fn storyboard_contexts_hold_the_scene(
    task_id: i64,
    scene: SceneView,
    video: LlmResultView,
    multi_view: LlmResultView,
    replies: Seq<Result<LlmResultView, AppErrorView>>,
)
    ensures
        scene_run(
            scene_start(task_id, scene),
            seq![Ok(video), Ok(multi_view)] + replies,
        ) matches Ok(end) && (scene_context(end) matches Some(ctx) ==> {
            &&& ctx.scene_index == scene.scene_index
            &&& ctx.video_prompt == Some(video.content)
            &&& ctx.multi_view_prompt == Some(multi_view.content)
            &&& scene.description matches Some(d) ==> ctx.scene_description == d
            &&& scene.description is None ==> ctx.scene_description.len() == 0
            &&& end.stage matches SceneStageView::Storyboards { index, .. } && {
                &&& 0 <= index < scene.storyboards.len()
                &&& ctx.storyboard_index == Some(scene.storyboards[index].storyboard_index)
                &&& scene.storyboards[index].content matches Some(c) ==> ctx.storyboard_content
                    == Some(c)
                &&& scene.storyboards[index].content is None ==> (
                ctx.storyboard_content matches Some(c) && c.len() == 0)
            }
        }),
{
    own_prompts_come_first(task_id, scene, video, multi_view, replies);
    let second = scene_step(scene_start(task_id, scene), Ok(video))->Ok_0;
    let third = scene_step(second, Ok(multi_view))->Ok_0;
    own_prompts_stay(third, video.content, multi_view.content, replies);
}

/// Every reply that does not fail a scene adds one record, under the type, scene and storyboard of
/// the context that it answers, and with all that the reply says. What was recorded before stays.
pub proof fn scene_replies_are_recorded_under_their_context(
    s: SceneState,
    reply: Result<LlmResultView, AppErrorView>,
)
    requires
        scene_wf(s),
        scene_context(s) is Some,
    ensures
        s.stage is Complete || s.stage is Video || s.stage is MultiView ==> all_records(s)
            == s.prompts,
        scene_step(s, reply) matches Ok(next) ==> ({
            let ctx = scene_context(s)->0;
            let p = all_records(next).last();
            &&& next.task_id == s.task_id && next.scene == s.scene
            &&& next.stage is Complete ==> all_records(next) == next.prompts
            &&& all_records(next) == all_records(s).push(p)
            &&& p.task_id == s.task_id
            &&& p.scene_index == ctx.scene_index
            &&& p.storyboard_index == ctx.storyboard_index
            &&& p.prompt_type == ctx.prompt_type
            &&& reply matches Ok(v) ==> {
                &&& p.status == prompt::PromptStatus::Success
                &&& p.prompt_content == Some(v.content)
                &&& p.error_message is None && p.llm_error_code is None
                &&& p.llm_response_snippet is None
                &&& p.llm_duration_ms == Some(v.metrics.duration_ms)
                &&& p.token_usage == v.metrics.token_usage
                &&& p.llm_retries == prompt::stored_retries(v.metrics.retries)
            }
            &&& reply matches Err(e) ==> {
                &&& p.status == prompt::PromptStatus::Failed
                &&& p.prompt_content is None && p.token_usage is None
                &&& p.error_message == Some(error::error_text(e))
                &&& e matches AppErrorView::Llm(l) ==> {
                    &&& p.llm_error_code == l.error_code
                    &&& p.llm_response_snippet == l.response_snippet
                    &&& p.llm_duration_ms == l.duration_ms
                    &&& l.retries matches Some(n) ==> p.llm_retries == prompt::stored_retries(n)
                    &&& l.retries is None ==> p.llm_retries is None
                }
                &&& !(e is Llm) ==> {
                    &&& p.llm_error_code is None && p.llm_response_snippet is None
                    &&& p.llm_duration_ms is None && p.llm_retries is None
                }
            }
        }),
{
    if let Ok(next) = scene_step(s, reply) {
        match s.stage {
            SceneStageView::Storyboards { video, multi_view, index, current } => {
                let stepped = storyboard::storyboard_step(current, reply);
                storyboard::replies_are_recorded_under_their_context(current, reply);
                let p = stepped.prompts.last();
                if storyboard::storyboard_finished(stepped) {
                    assert(all_records(next) =~= next.prompts);
                }
                assert(all_records(next) =~= all_records(s).push(p));
            },
            SceneStageView::MultiView { .. } => {
                assert(all_records(next) =~= next.prompts);
            },
            _ => {},
        }
    }
}

/// The storyboards of a scene come in order. After its multi-view prompt the first one begins; a
/// prompt of a storyboard is followed by the next type of the same one, with the prompt among the
/// earlier ones; after its last prompt, or a failure, the next storyboard begins, without earlier
/// prompts. Where there is none, the scene is complete. Each failure counts one storyboard.
pub proof fn storyboards_come_in_order(s: SceneState, reply: Result<LlmResultView, AppErrorView>)
    requires
        scene_wf(s),
        s.stage is MultiView || s.stage is Storyboards,
    ensures
        scene_step(s, reply) matches Ok(next) ==> ({
            let begun = match s.stage {
                SceneStageView::Storyboards { index, .. } => index,
                _ => -1,
            };
            let earlier = (scene_context(s)->0).previous_prompts;
            let same = s.stage is Storyboards && reply is Ok && earlier.len() < 4;
            let i = if same {
                begun
            } else {
                begun + 1
            };
            &&& i >= s.scene.storyboards.len() ==> next.stage is Complete && scene_context(next)
                is None
            &&& i < s.scene.storyboards.len() ==> {
                &&& next.stage matches SceneStageView::Storyboards { index, .. } && index == i
                &&& scene_context(next) matches Some(ctx) && {
                    &&& ctx.storyboard_index == Some(s.scene.storyboards[i].storyboard_index)
                    &&& same ==> ctx.previous_prompts == earlier.push(
                        ((scene_context(s)->0).prompt_type, (reply->Ok_0).content),
                    )
                    &&& !same ==> ctx.previous_prompts.len() == 0 && ctx.prompt_type
                        == PromptType::TextToImage
                    &&& same ==> ctx.prompt_type == match (scene_context(s)->0).prompt_type {
                        PromptType::TextToImage => PromptType::SpatialCompositionDrawing,
                        PromptType::SpatialCompositionDrawing => PromptType::FusionImage,
                        PromptType::FusionImage => PromptType::SoundEffect,
                        _ => PromptType::SpecialEffect,
                    }
                }
            }
            &&& next.failed_storyboards == s.failed_storyboards + if s.stage is Storyboards
                && reply is Err {
                1int
            } else {
                0int
            }
        }),
        s.stage is Storyboards ==> scene_step(s, reply) is Ok,
{
    if let SceneStageView::Storyboards { current, .. } = s.stage {
        storyboard::storyboard_step_keeps_wf(current, reply);
        assert(current.previous.len() < 5);
    }
}

} // verus!
