//! The course of a task: its script is fetched, the prompts of its scenes are generated, they are
//! written, and the task's completion is published.

use vstd::pervasive::unreached;
use vstd::prelude::*;

use crate::db::mongo::{self, find_script_by_task_id};
use crate::error::{self, AppError, AppErrorView};
use crate::llm::client;
use crate::llm::types::{LlmResult, LlmResultView, PromptContext, PromptContextView};
use crate::model::prompt::{self, MediaPrompt, MediaPromptView, PromptType};
use crate::model::script::{self, Scene, SceneView, ScriptDocument, ScriptView, TaskMessage};
use crate::task::scene::{self, process_scene, SceneRun, SceneStageView, SceneState};
use crate::text;

verus! {

/// What a task asks to be done next.
#[derive(Debug)]
pub enum TaskAction {
    /// Look up the script of the task.
    FetchScript { task_id: i64 },
    /// Have a prompt generated.
    Generate(PromptContext),
    /// Write all these records, or none.
    WritePrompts(Vec<MediaPrompt>),
    /// Tell the downstream queue that the task is complete.
    PublishCompletion { task_id: i64 },
    /// Nothing more: the task has ended in this way.
    Finish(Result<(), AppError>),
}

/// What came of a [`TaskAction`].
#[derive(Debug)]
pub enum TaskEvent {
    /// What the query for the script returned.
    ScriptFetched(Result<Option<ScriptDocument>, AppError>),
    Generated(Result<LlmResult, AppError>),
    PromptsWritten(Result<(), AppError>),
    CompletionPublished(Result<(), AppError>),
}

/// The contents of a [`TaskAction`].
#[verifier::ext_equal]
pub enum TaskActionView {
    FetchScript { task_id: i64 },
    Generate(PromptContextView),
    WritePrompts(Seq<MediaPromptView>),
    PublishCompletion { task_id: i64 },
    Finish(Result<(), AppErrorView>),
}

/// The contents of a [`TaskEvent`].
#[verifier::ext_equal]
pub enum TaskEventView {
    ScriptFetched(Result<Option<ScriptView>, AppErrorView>),
    Generated(Result<LlmResultView, AppErrorView>),
    PromptsWritten(Result<(), AppErrorView>),
    CompletionPublished(Result<(), AppErrorView>),
}

/// The contents of an outcome.
pub open spec fn outcome_view(r: Result<(), AppError>) -> Result<(), AppErrorView> {
    match r {
        Ok(()) => Ok(()),
        Err(e) => Err(e@),
    }
}

impl View for TaskAction {
    type V = TaskActionView;

    open spec fn view(&self) -> TaskActionView {
        match *self {
            TaskAction::FetchScript { task_id } => TaskActionView::FetchScript { task_id },
            TaskAction::Generate(ctx) => TaskActionView::Generate(ctx@),
            TaskAction::WritePrompts(prompts) => TaskActionView::WritePrompts(
                prompt::prompt_views(prompts@),
            ),
            TaskAction::PublishCompletion { task_id } => TaskActionView::PublishCompletion {
                task_id,
            },
            TaskAction::Finish(r) => TaskActionView::Finish(outcome_view(r)),
        }
    }
}

impl View for TaskEvent {
    type V = TaskEventView;

    open spec fn view(&self) -> TaskEventView {
        match *self {
            TaskEvent::ScriptFetched(r) => TaskEventView::ScriptFetched(mongo::query_view(r)),
            TaskEvent::Generated(r) => TaskEventView::Generated(client::reply_view(r)),
            TaskEvent::PromptsWritten(r) => TaskEventView::PromptsWritten(outcome_view(r)),
            TaskEvent::CompletionPublished(r) => TaskEventView::CompletionPublished(
                outcome_view(r),
            ),
        }
    }
}

/// Where a task stands.
#[verifier::ext_equal]
pub enum TaskStageView {
    Fetching,
    /// The prompts of a scene are being generated.
    Generating {
        /// The records of the scenes before it.
        prompts: Seq<MediaPromptView>,
        current: SceneState,
        /// The scenes after it.
        rest: Seq<SceneView>,
    },
    Writing,
    Publishing,
    Finished,
}

/// How far a task has come.
#[verifier::ext_equal]
pub struct TaskState {
    pub task_id: i64,
    pub stage: TaskStageView,
}

/// What is said where the script of a task has no scenes.
pub open spec fn no_scenes(task_id: i64) -> AppErrorView {
    AppErrorView::TaskFailed(
        "Script for task_id="@ + text::signed_decimal(task_id as int) + " has no scenes"@,
    )
}

/// A task at its beginning.
pub open spec fn task_start(task_id: i64) -> TaskState {
    TaskState { task_id, stage: TaskStageView::Fetching }
}

/// Whether an event is what came of the action that a task last asked for.
pub open spec fn task_expects(s: TaskState, e: TaskEventView) -> bool {
    match s.stage {
        TaskStageView::Fetching => e is ScriptFetched,
        TaskStageView::Generating { .. } => e is Generated,
        TaskStageView::Writing => e is PromptsWritten,
        TaskStageView::Publishing => e is CompletionPublished,
        TaskStageView::Finished => false,
    }
}

/// A task that turns to the first of these scenes, or writes what it has where none is left.
pub open spec fn next_scene(
    task_id: i64,
    prompts: Seq<MediaPromptView>,
    scenes: Seq<SceneView>,
) -> (TaskState, TaskActionView) {
    if scenes.len() > 0 {
        let current = scene::scene_start(task_id, scenes[0]);
        (
            TaskState {
                task_id,
                stage: TaskStageView::Generating { prompts, current, rest: scenes.drop_first() },
            },
            TaskActionView::Generate(scene::scene_context(current)->0),
        )
    } else {
        (
            TaskState { task_id, stage: TaskStageView::Writing },
            TaskActionView::WritePrompts(prompts),
        )
    }
}

/// A task that has ended.
pub open spec fn task_end(task_id: i64, outcome: Result<(), AppErrorView>) -> (
    TaskState,
    TaskActionView,
) {
    (
        TaskState { task_id, stage: TaskStageView::Finished },
        TaskActionView::Finish(outcome),
    )
}

/// A task after an event, and what it asks for then.
pub open spec fn task_step(s: TaskState, e: TaskEventView) -> (TaskState, TaskActionView) {
    match (s.stage, e) {
        (TaskStageView::Fetching, TaskEventView::ScriptFetched(found)) => match mongo::found_script(
            s.task_id,
            found,
        ) {
            Ok(script) => if script.scenes.len() == 0 {
                task_end(s.task_id, Err(no_scenes(s.task_id)))
            } else {
                next_scene(s.task_id, Seq::empty(), script.scenes)
            },
            Err(error) => task_end(s.task_id, Err(error)),
        },
        (
            TaskStageView::Generating { prompts, current, rest },
            TaskEventView::Generated(reply),
        ) => match scene::scene_step(current, reply) {
            Ok(next) => match scene::scene_context(next) {
                Some(ctx) => (
                    TaskState {
                        task_id: s.task_id,
                        stage: TaskStageView::Generating { prompts, current: next, rest },
                    },
                    TaskActionView::Generate(ctx),
                ),
                None => next_scene(s.task_id, prompts + next.prompts, rest),
            },
            Err(error) => task_end(s.task_id, Err(error)),
        },
        (TaskStageView::Writing, TaskEventView::PromptsWritten(r)) => match r {
            Ok(()) => (
                TaskState { task_id: s.task_id, stage: TaskStageView::Publishing },
                TaskActionView::PublishCompletion { task_id: s.task_id },
            ),
            Err(error) => task_end(s.task_id, Err(error)),
        },
        (TaskStageView::Publishing, TaskEventView::CompletionPublished(r)) => task_end(
            s.task_id,
            r,
        ),
        _ => arbitrary(),
    }
}

/// What every task keeps.
pub open spec fn task_wf(s: TaskState) -> bool {
    s.stage matches TaskStageView::Generating { current, .. } ==> {
        &&& scene::scene_wf(current)
        &&& scene::scene_context(current) is Some
        &&& current.task_id == s.task_id
    }
}

#[derive(Debug)]
enum Stage {
    Fetching,
    Generating { prompts: Vec<MediaPrompt>, current: SceneRun, rest: Vec<Scene> },
    Writing,
    Publishing,
    Finished,
}

impl Stage {
    spec fn view(&self) -> TaskStageView {
        match *self {
            Stage::Fetching => TaskStageView::Fetching,
            Stage::Generating { prompts, current, rest } => TaskStageView::Generating {
                prompts: prompt::prompt_views(prompts@),
                current: current@,
                rest: script::scene_views(rest@),
            },
            Stage::Writing => TaskStageView::Writing,
            Stage::Publishing => TaskStageView::Publishing,
            Stage::Finished => TaskStageView::Finished,
        }
    }
}

/// A task that is being processed.
#[derive(Debug)]
pub struct TaskProcessor {
    task_id: i64,
    stage: Stage,
}

impl View for TaskProcessor {
    type V = TaskState;

    closed spec fn view(&self) -> TaskState {
        TaskState { task_id: self.task_id, stage: self.stage@ }
    }
}

/// Turns to the first of these scenes, or writes what there is where none is left.
fn enter_scene(task_id: i64, prompts: Vec<MediaPrompt>, scenes: Vec<Scene>) -> (r: (
    TaskProcessor,
    TaskAction,
))
    ensures
        (r.0@, r.1@) == next_scene(
            task_id,
            prompt::prompt_views(prompts@),
            script::scene_views(scenes@),
        ),
        task_wf(r.0@),
{
    let ghost views = script::scene_views(scenes@);
    let mut rest: Vec<Scene> = scenes;
    if rest.len() > 0 {
        let first: Scene = rest.remove(0);
        assert(first@ == views[0]);
        assert(script::scene_views(rest@) =~= views.drop_first());
        let current = SceneRun::start(task_id, first);
        match current.next_context() {
            Some(ctx) => (
                TaskProcessor { task_id, stage: Stage::Generating { prompts, current, rest } },
                TaskAction::Generate(ctx),
            ),
            None => (
                TaskProcessor { task_id, stage: Stage::Writing },
                TaskAction::WritePrompts(prompts),
            ),
        }
    } else {
        (TaskProcessor { task_id, stage: Stage::Writing }, TaskAction::WritePrompts(prompts))
    }
}

/// Ends a task.
fn end(task_id: i64, outcome: Result<(), AppError>) -> (r: (TaskProcessor, TaskAction))
    ensures
        (r.0@, r.1@) == task_end(task_id, outcome_view(outcome)),
        task_wf(r.0@),
{
    (TaskProcessor { task_id, stage: Stage::Finished }, TaskAction::Finish(outcome))
}

impl TaskProcessor {
    /// Begins with the task that a message asks for.
    pub fn new(msg: TaskMessage) -> (r: Self)
        ensures
            r@ == task_start(msg.task_id),
            task_wf(r@),
    {
        TaskProcessor { task_id: msg.task_id, stage: Stage::Fetching }
    }

    /// What a task asks for first.
    pub fn first_action(&self) -> (r: TaskAction)
        ensures
            r@ == (TaskActionView::FetchScript { task_id: self@.task_id }),
    {
        TaskAction::FetchScript { task_id: self.task_id }
    }

    /// Whether an event is what came of the action that the task last asked for.
    pub fn expects(&self, event: &TaskEvent) -> (r: bool)
        ensures
            r == task_expects(self@, event@),
    {
        match (&self.stage, event) {
            (Stage::Fetching, TaskEvent::ScriptFetched(_)) => true,
            (Stage::Generating { .. }, TaskEvent::Generated(_)) => true,
            (Stage::Writing, TaskEvent::PromptsWritten(_)) => true,
            (Stage::Publishing, TaskEvent::CompletionPublished(_)) => true,
            _ => false,
        }
    }

    /// Takes what came of the last action, and says what is to be done next.
    pub fn process(self, event: TaskEvent) -> (r: (TaskProcessor, TaskAction))
        requires
            task_wf(self@),
            task_expects(self@, event@),
        ensures
            (r.0@, r.1@) == task_step(self@, event@),
            task_wf(r.0@),
    {
        let task_id: i64 = self.task_id;
        match (self.stage, event) {
            (Stage::Fetching, TaskEvent::ScriptFetched(found)) => {
                match find_script_by_task_id(task_id, found) {
                    Ok(script) => {
                        if script.scenes.len() == 0 {
                            let mut message: String = "Script for task_id=".to_owned();
                            text::push_signed_decimal(&mut message, task_id);
                            message.append(" has no scenes");
                            end(task_id, Err(AppError::TaskFailed(message)))
                        } else {
                            let none: Vec<MediaPrompt> = Vec::new();
                            assert(prompt::prompt_views(none@) =~= Seq::<
                                MediaPromptView,
                            >::empty());
                            enter_scene(task_id, none, script.scenes)
                        }
                    },
                    Err(e) => end(task_id, Err(e)),
                }
            },
            (Stage::Generating { prompts, current, rest }, TaskEvent::Generated(reply)) => {
                match process_scene(current, reply) {
                    Ok(next) => {
                        let ghost after = next@;
                        match next.next_context() {
                            Some(ctx) => (
                                TaskProcessor {
                                    task_id,
                                    stage: Stage::Generating { prompts, current: next, rest },
                                },
                                TaskAction::Generate(ctx),
                            ),
                            None => {
                                let mut all: Vec<MediaPrompt> = prompts;
                                let ghost before = prompt::prompt_views(all@);
                                if let Ok(result) = next.into_result() {
                                    let mut more: Vec<MediaPrompt> = result.prompts;
                                    all.append(&mut more);
                                }
                                assert(prompt::prompt_views(all@) =~= before + after.prompts);
                                enter_scene(task_id, all, rest)
                            },
                        }
                    },
                    Err(e) => end(task_id, Err(e)),
                }
            },
            (Stage::Writing, TaskEvent::PromptsWritten(r)) => match r {
                Ok(()) => (
                    TaskProcessor { task_id, stage: Stage::Publishing },
                    TaskAction::PublishCompletion { task_id },
                ),
                Err(e) => end(task_id, Err(e)),
            },
            (Stage::Publishing, TaskEvent::CompletionPublished(r)) => end(task_id, r),
            _ => unreached(),
        }
    }
}

/// The replies of the LLM among events.
pub open spec fn replies_in(events: Seq<TaskEventView>) -> Seq<Result<LlmResultView, AppErrorView>> {
    events.map_values(|e: TaskEventView| e->Generated_0)
}

/// The records of a list of scenes, in order, each scene taking its share of the replies.
pub open spec fn script_records(
    task_id: i64,
    scenes: Seq<SceneView>,
    replies: Seq<Result<LlmResultView, AppErrorView>>,
) -> Seq<MediaPromptView>
    decreases scenes.len(),
{
    if scenes.len() == 0 {
        Seq::empty()
    } else {
        let first = scene::scene_start(task_id, scenes[0]);
        let n = scene::replies_to_come(first, replies) as int;
        scene::records_to_come(first, replies) + script_records(
            task_id,
            scenes.drop_first(),
            replies.skip(n),
        )
    }
}

/// A task after events, and what it asked for at each; none where one was not expected.
pub open spec fn task_run(s: TaskState, events: Seq<TaskEventView>) -> Option<
    (TaskState, Seq<TaskActionView>),
>
    decreases events.len(),
{
    if events.len() == 0 {
        Some((s, Seq::empty()))
    } else if !task_expects(s, events[0]) {
        None
    } else {
        let (next, action) = task_step(s, events[0]);
        match task_run(next, events.drop_first()) {
            Some((last, actions)) => Some((last, seq![action] + actions)),
            None => None,
        }
    }
}

/// The records of a task whose prompts are being generated, by the replies to come.
spec fn total_records(
    task_id: i64,
    prompts: Seq<MediaPromptView>,
    current: SceneState,
    rest: Seq<SceneView>,
    replies: Seq<Result<LlmResultView, AppErrorView>>,
) -> Seq<MediaPromptView> {
    prompts + scene::all_records(current) + scene::records_to_come(current, replies)
        + script_records(
        task_id,
        rest,
        replies.skip(scene::replies_to_come(current, replies) as int),
    )
}

/// An action comes of one kind of event only: what is written was generated, what is published was
/// written, and a task that ends well was published.
pub proof fn each_action_follows_its_event(s: TaskState, e: TaskEventView)
    requires
        task_wf(s),
        task_expects(s, e),
    ensures
        match task_step(s, e).1 {
            TaskActionView::FetchScript { .. } => false,
            TaskActionView::Generate(_) => e is ScriptFetched || e is Generated,
            TaskActionView::WritePrompts(_) => e is Generated,
            TaskActionView::PublishCompletion { task_id } => task_id == s.task_id && (
            e matches TaskEventView::PromptsWritten(Ok(_))),
            TaskActionView::Finish(Ok(_)) => e matches TaskEventView::CompletionPublished(Ok(_)),
            TaskActionView::Finish(Err(_)) => true,
        },
{
}

/// A task fails exactly where its script cannot be fetched, is missing or has no scenes, where one
/// of a scene's own two prompts fails, or where writing or publishing fails; and with that error.
pub proof fn task_fails_with_its_cause(s: TaskState, e: TaskEventView, error: AppErrorView)
    requires
        task_wf(s),
        task_expects(s, e),
    ensures
        task_step(s, e).1 == TaskActionView::Finish(Err(error)) <==> match e {
            TaskEventView::ScriptFetched(Err(cause)) => error == cause,
            TaskEventView::ScriptFetched(Ok(None)) => error == mongo::missing_script(s.task_id),
            TaskEventView::ScriptFetched(Ok(Some(script))) => script.scenes.len() == 0 && error
                == no_scenes(s.task_id),
            TaskEventView::Generated(Err(cause)) => error == cause && match s.stage {
                TaskStageView::Generating { current, .. } => current.stage is Video
                    || current.stage is MultiView,
                _ => false,
            },
            TaskEventView::Generated(Ok(_)) => false,
            TaskEventView::PromptsWritten(Err(cause)) => error == cause,
            TaskEventView::PromptsWritten(Ok(())) => false,
            TaskEventView::CompletionPublished(Err(cause)) => error == cause,
            TaskEventView::CompletionPublished(Ok(())) => false,
        },
{
}

/// A reply that leaves a scene with prompts to come keeps the total.
proof fn scene_step_keeps_total_records(
    task_id: i64,
    prompts: Seq<MediaPromptView>,
    current: SceneState,
    rest: Seq<SceneView>,
    replies: Seq<Result<LlmResultView, AppErrorView>>,
)
    requires
        scene::scene_wf(current),
        scene::scene_context(current) is Some,
        replies.len() > 0,
        scene::scene_step(current, replies[0]) is Ok,
    ensures
        total_records(task_id, prompts, current, rest, replies) == total_records(
            task_id,
            prompts,
            scene::scene_step(current, replies[0])->Ok_0,
            rest,
            replies.drop_first(),
        ),
{
    let after = scene::scene_step(current, replies[0])->Ok_0;
    let left = replies.drop_first();
    scene::scene_step_keeps_total(current, replies);
    scene::replies_to_come_bounds(current, replies);
    assert(left.skip(scene::replies_to_come(after, left) as int) =~= replies.skip(
        scene::replies_to_come(current, replies) as int,
    ));
    assert(total_records(task_id, prompts, current, rest, replies) =~= prompts + (
    scene::all_records(current) + scene::records_to_come(current, replies)) + script_records(
        task_id,
        rest,
        replies.skip(scene::replies_to_come(current, replies) as int),
    ));
    assert(total_records(task_id, prompts, after, rest, left) =~= prompts + (scene::all_records(
        after,
    ) + scene::records_to_come(after, left)) + script_records(
        task_id,
        rest,
        left.skip(scene::replies_to_come(after, left) as int),
    ));
}

/// What is there once a scene is complete, and the records of the scenes after it.
proof fn complete_scene_total(
    task_id: i64,
    prompts: Seq<MediaPromptView>,
    done: SceneState,
    rest: Seq<SceneView>,
    replies: Seq<Result<LlmResultView, AppErrorView>>,
)
    requires
        done.stage is Complete,
    ensures
        total_records(task_id, prompts, done, rest, replies) == prompts + done.prompts
            + script_records(task_id, rest, replies),
        rest.len() > 0 ==> total_records(
            task_id,
            prompts + done.prompts,
            scene::scene_start(task_id, rest[0]),
            rest.drop_first(),
            replies,
        ) == prompts + done.prompts + script_records(task_id, rest, replies),
{
    assert(replies.skip(0) =~= replies);
    assert(total_records(task_id, prompts, done, rest, replies) =~= prompts + done.prompts
        + script_records(task_id, rest, replies));
    if rest.len() > 0 {
        let start = scene::scene_start(task_id, rest[0]);
        assert(scene::all_records(start) =~= Seq::<MediaPromptView>::empty());
        assert(total_records(
            task_id,
            prompts + done.prompts,
            start,
            rest.drop_first(),
            replies,
        ) =~= prompts + done.prompts + script_records(task_id, rest, replies));
    }
}

/// A task whose prompts were all generated ends well only if they are written and its completion is
/// published.
proof fn writing_comes_to_publishing(s: TaskState, events: Seq<TaskEventView>)
    requires
        s.stage is Writing,
        task_run(s, events) matches Some((_, actions)) && actions.len() > 0 && (
        actions.last() matches TaskActionView::Finish(Ok(_))),
    ensures
        events.len() == 2,
        (task_run(s, events)->0).1.len() == 2,
        (task_run(s, events)->0).1[0] == (TaskActionView::PublishCompletion {
            task_id: s.task_id,
        }),
        events[0] matches TaskEventView::PromptsWritten(Ok(_)),
        events[1] matches TaskEventView::CompletionPublished(Ok(_)),
{
    let (next, action) = task_step(s, events[0]);
    let tail = events.drop_first();
    let actions = (task_run(s, events)->0).1;
    let later = (task_run(next, tail)->0).1;
    assert(actions =~= seq![action] + later);
    if next.stage is Finished {
        assert(tail.len() == 0);
    } else {
        assert(later.len() > 0);
        assert(later.last() == actions.last());
        let (last, end) = task_step(next, tail[0]);
        let final_actions = (task_run(last, tail.drop_first())->0).1;
        assert(last.stage is Finished);
        assert(tail.drop_first().len() == 0);
        assert(later =~= seq![end] + final_actions);
        each_action_follows_its_event(next, tail[0]);
        each_action_follows_its_event(s, events[0]);
    }
}

#[verifier::spinoff_prover]
proof fn generation_comes_to_total(
    s: TaskState,
    prompts: Seq<MediaPromptView>,
    current: SceneState,
    rest: Seq<SceneView>,
    events: Seq<TaskEventView>,
)
    requires
        task_wf(s),
        s.stage == (TaskStageView::Generating { prompts, current, rest }),
        task_run(s, events) matches Some((_, actions)) && actions.len() > 0 && (
        actions.last() matches TaskActionView::Finish(Ok(_))),
    ensures
        ({
            let n = events.len() - 2;
            let actions = (task_run(s, events)->0).1;
            &&& n > 0
            &&& actions.len() == events.len()
            &&& forall|i: int| 0 <= i < n ==> events[i] is Generated
            &&& events[n] matches TaskEventView::PromptsWritten(Ok(_))
            &&& events[n + 1] matches TaskEventView::CompletionPublished(Ok(_))
            &&& actions[n - 1] == TaskActionView::WritePrompts(
                total_records(s.task_id, prompts, current, rest, replies_in(events.take(n))),
            )
            &&& actions[n] == (TaskActionView::PublishCompletion { task_id: s.task_id })
        }),
    decreases events.len(),
{
    let (next, action) = task_step(s, events[0]);
    let tail = events.drop_first();
    let reply = events[0]->Generated_0;
    let n = events.len() - 2;
    let actions = (task_run(s, events)->0).1;
    let later = (task_run(next, tail)->0).1;
    let replies = replies_in(events.take(n));
    assert(actions =~= seq![action] + later);
    if scene::scene_step(current, reply) is Err {
        assert(tail.len() == 0);
    } else {
        let after = scene::scene_step(current, reply)->Ok_0;
        let all = prompts + after.prompts;
        assert(scene::scene_wf(after) && after.task_id == s.task_id) by {
            scene::scene_step_keeps_total(current, seq![reply]);
        }
        assert(later.len() > 0 && later.last() == actions.last());
        if scene::scene_context(after) is Some {
            generation_comes_to_total(next, prompts, after, rest, tail);
        } else if rest.len() > 0 {
            let start = scene::scene_start(s.task_id, rest[0]);
            generation_comes_to_total(next, all, start, rest.drop_first(), tail);
        } else {
            writing_comes_to_publishing(next, tail);
        }
        assert(replies[0] == reply);
        assert(replies_in(tail.take(n - 1)) =~= replies.drop_first());
        scene_step_keeps_total_records(s.task_id, prompts, current, rest, replies);
        if scene::scene_context(after) is None {
            complete_scene_total(s.task_id, prompts, after, rest, replies.drop_first());
            assert(all + Seq::<MediaPromptView>::empty() =~= all);
        }
        assert forall|i: int| 0 <= i < n implies events[i] is Generated by {
            assert(i > 0 ==> events[i] == tail[i - 1]);
        }
    }
}

/// A task ends well only in this way: its script was fetched and has scenes, the replies of the
/// LLM completed them all, the records of all scenes were written in order, and then its completion
/// was published.
pub proof fn completed_task_wrote_all_its_records(task_id: i64, events: Seq<TaskEventView>)
    requires
        task_run(task_start(task_id), events) matches Some((_, actions)) && actions.len() > 0 && (
        actions.last() matches TaskActionView::Finish(Ok(_))),
    ensures
        ({
            let n = events.len() - 2;
            let actions = (task_run(task_start(task_id), events)->0).1;
            &&& n > 1
            &&& actions.len() == events.len()
            &&& events[0] matches TaskEventView::ScriptFetched(Ok(Some(script)))
            &&& script.scenes.len() > 0
            &&& forall|i: int| 1 <= i < n ==> events[i] is Generated
            &&& events[n] matches TaskEventView::PromptsWritten(Ok(_))
            &&& events[n + 1] matches TaskEventView::CompletionPublished(Ok(_))
            &&& actions[n - 1] == TaskActionView::WritePrompts(
                script_records(task_id, script.scenes, replies_in(events.subrange(1, n))),
            )
            &&& actions[n] == (TaskActionView::PublishCompletion { task_id })
        }),
{
    let s = task_start(task_id);
    let (next, action) = task_step(s, events[0]);
    let tail = events.drop_first();
    let actions = (task_run(s, events)->0).1;
    let later = (task_run(next, tail)->0).1;
    assert(actions =~= seq![action] + later);
    if next.stage is Finished {
        assert(tail.len() == 0);
    } else {
        let scenes = (events[0]->ScriptFetched_0->Ok_0->0).scenes;
        let start = scene::scene_start(task_id, scenes[0]);
        let n = events.len() - 2;
        assert(later.len() > 0 && later.last() == actions.last());
        generation_comes_to_total(next, Seq::empty(), start, scenes.drop_first(), tail);
        let replies = replies_in(tail.take(n - 1));
        assert(tail.take(n - 1) =~= events.subrange(1, n));
        assert(total_records(task_id, Seq::empty(), start, scenes.drop_first(), replies)
            =~= script_records(task_id, scenes, replies));
        assert forall|i: int| 1 <= i < n implies events[i] is Generated by {
            assert(tail[i - 1] is Generated);
        }
    }
}

/// Once a task's prompts are handed over, the LLM is not asked again.
proof fn nothing_is_generated_after_writing(s: TaskState, events: Seq<TaskEventView>)
    requires
        s.stage is Writing || s.stage is Publishing || s.stage is Finished,
        task_run(s, events) is Some,
    ensures
        forall|i: int| 0 <= i < events.len() ==> !(#[trigger] events[i] is Generated),
    decreases events.len(),
{
    if events.len() > 0 {
        let tail = events.drop_first();
        nothing_is_generated_after_writing(task_step(s, events[0]).0, tail);
        assert forall|i: int| 0 <= i < events.len() implies !(#[trigger] events[i] is Generated) by {
            assert(i > 0 ==> events[i] == tail[i - 1]);
        }
    }
}

proof fn generation_failure_from(s: TaskState, events: Seq<TaskEventView>)
    requires
        task_wf(s),
        s.stage is Fetching || s.stage is Generating,
        task_run(s, events) is Some,
        events.len() > 0,
        events.last() is Generated,
        (task_run(s, events)->0).1.last() is Finish,
    ensures
        ({
            let actions = (task_run(s, events)->0).1;
            forall|i: int|
                0 <= i < actions.len() ==> !(#[trigger] actions[i] is WritePrompts
                    || actions[i] is PublishCompletion)
        }),
    decreases events.len(),
{
    let (next, action) = task_step(s, events[0]);
    let tail = events.drop_first();
    let actions = (task_run(s, events)->0).1;
    let later = (task_run(next, tail)->0).1;
    assert(actions =~= seq![action] + later);
    if tail.len() > 0 {
        assert(tail.last() == events.last());
        if next.stage is Writing || next.stage is Finished {
            nothing_is_generated_after_writing(next, tail);
            assert(tail[tail.len() - 1] is Generated);
        } else {
            assert(task_wf(next)) by {
                if s.stage is Generating {
                    scene::scene_step_keeps_total(
                        s.stage->current,
                        seq![events[0]->Generated_0],
                    );
                }
            }
            assert(later.last() == actions.last());
            generation_failure_from(next, tail);
        }
    }
}

/// A task that a prompt fails has written nothing, and has published nothing.
pub proof fn failed_generation_writes_nothing(task_id: i64, events: Seq<TaskEventView>)
    requires
        task_run(task_start(task_id), events) is Some,
        events.len() > 0,
        events.last() is Generated,
        (task_run(task_start(task_id), events)->0).1.last() is Finish,
    ensures
        ({
            let actions = (task_run(task_start(task_id), events)->0).1;
            forall|i: int|
                0 <= i < actions.len() ==> !(#[trigger] actions[i] is WritePrompts
                    || actions[i] is PublishCompletion)
        }),
{
    generation_failure_from(task_start(task_id), events);
}

/// How many prompts a list of scenes needs where none fails.
pub open spec fn script_prompts(scenes: Seq<SceneView>) -> int
    decreases scenes.len(),
{
    if scenes.len() == 0 {
        0
    } else {
        scene::scene_prompts(scenes[0]) + script_prompts(scenes.drop_first())
    }
}

proof fn script_prompts_bounds(scenes: Seq<SceneView>)
    ensures
        script_prompts(scenes) >= 2 * scenes.len(),
    decreases scenes.len(),
{
    if scenes.len() > 0 {
        script_prompts_bounds(scenes.drop_first());
    }
}

/// The events of a task whose prompts are all asked for, written and published.
pub open spec fn smooth_events(replies: Seq<Result<LlmResultView, AppErrorView>>) -> Seq<
    TaskEventView,
> {
    replies.map_values(|r: Result<LlmResultView, AppErrorView>| TaskEventView::Generated(r)) + seq![
        TaskEventView::PromptsWritten(Ok(())),
        TaskEventView::CompletionPublished(Ok(())),
    ]
}

/// Whether a scene's share of the replies to come brings it to its end, without failing it.
pub open spec fn brings_to_end(
    current: SceneState,
    replies: Seq<Result<LlmResultView, AppErrorView>>,
) -> bool {
    scene::scene_run(current, replies.take(scene::replies_to_come(current, replies) as int)) matches Ok(
        end,
    ) && end.stage is Complete
}

/// Whether these replies, and no more, bring every scene in turn to its end, without failing one.
pub open spec fn brings_all_to_end(
    task_id: i64,
    scenes: Seq<SceneView>,
    replies: Seq<Result<LlmResultView, AppErrorView>>,
) -> bool
    decreases scenes.len(),
{
    if scenes.len() == 0 {
        replies.len() == 0
    } else {
        let first = scene::scene_start(task_id, scenes[0]);
        brings_to_end(first, replies) && brings_all_to_end(
            task_id,
            scenes.drop_first(),
            replies.skip(scene::replies_to_come(first, replies) as int),
        )
    }
}

/// Whether these replies, and no more, bring the scene under way and those after it to their end.
spec fn brings_rest_to_end(
    task_id: i64,
    current: SceneState,
    rest: Seq<SceneView>,
    replies: Seq<Result<LlmResultView, AppErrorView>>,
) -> bool {
    brings_to_end(current, replies) && brings_all_to_end(
        task_id,
        rest,
        replies.skip(scene::replies_to_come(current, replies) as int),
    )
}

/// The first of the replies that bring a scene to its end does not fail it, and the others bring
/// what follows to its end.
proof fn one_reply_nearer(
    task_id: i64,
    current: SceneState,
    rest: Seq<SceneView>,
    replies: Seq<Result<LlmResultView, AppErrorView>>,
)
    requires
        scene::scene_wf(current),
        scene::scene_context(current) is Some,
        brings_rest_to_end(task_id, current, rest, replies),
    ensures
        replies.len() > 0,
        scene::scene_step(current, replies[0]) matches Ok(after) && brings_rest_to_end(
            task_id,
            after,
            rest,
            replies.drop_first(),
        ),
{
    let n = scene::replies_to_come(current, replies) as int;
    let share = replies.take(n);
    let left = replies.drop_first();
    scene::replies_to_come_bounds(current, replies);
    assert(share.len() > 0);
    assert(share[0] == replies[0]);
    let after = scene::scene_step(current, replies[0])->Ok_0;
    scene::scene_step_keeps_total(current, replies);
    assert(share.drop_first() =~= left.take(n - 1));
    assert(left.skip(n - 1) =~= replies.skip(n));
}

proof fn generation_completes(
    s: TaskState,
    prompts: Seq<MediaPromptView>,
    current: SceneState,
    rest: Seq<SceneView>,
    replies: Seq<Result<LlmResultView, AppErrorView>>,
)
    requires
        task_wf(s),
        s.stage == (TaskStageView::Generating { prompts, current, rest }),
        brings_rest_to_end(s.task_id, current, rest, replies),
    ensures
        task_run(s, smooth_events(replies)) matches Some((_, actions)) && actions.len() > 0 && (
        actions.last() matches TaskActionView::Finish(Ok(_))),
    decreases replies.len(),
{
    let events = smooth_events(replies);
    one_reply_nearer(s.task_id, current, rest, replies);
    scene::each_reply_brings_the_end_nearer(current, replies[0]);
    assert(events[0] == TaskEventView::Generated(replies[0]));
    let (next, _) = task_step(s, events[0]);
    let after = scene::scene_step(current, replies[0])->Ok_0;
    let left = replies.drop_first();
    assert(events.drop_first() =~= smooth_events(left));
    if scene::scene_context(after) is Some {
        generation_completes(next, prompts, after, rest, left);
    } else {
        assert(left.skip(0) =~= left);
        if rest.len() > 0 {
            let start = scene::scene_start(s.task_id, rest[0]);
            generation_completes(next, prompts + after.prompts, start, rest.drop_first(), left);
        } else {
            let tail = events.drop_first();
            assert(tail[0] == TaskEventView::PromptsWritten(Ok(())));
            assert(tail.drop_first()[0] == TaskEventView::CompletionPublished(Ok(())));
            reveal_with_fuel(task_run, 4);
        }
    }
}

/// A task whose script has scenes ends well once the replies of the LLM have brought every scene in
/// turn to its end, and writing and publishing succeed. Failures within storyboards do not keep it
/// from that.
pub proof fn task_completes_unless_a_scene_fails(
    task_id: i64,
    script: ScriptView,
    replies: Seq<Result<LlmResultView, AppErrorView>>,
)
    requires
        script.scenes.len() > 0,
        brings_all_to_end(task_id, script.scenes, replies),
    ensures
        task_run(
            task_start(task_id),
            seq![TaskEventView::ScriptFetched(Ok(Some(script)))] + smooth_events(replies),
        ) matches Some((_, actions)) && actions.len() > 0 && (
        actions.last() matches TaskActionView::Finish(Ok(_))),
{
    let events = seq![TaskEventView::ScriptFetched(Ok(Some(script)))] + smooth_events(replies);
    let (next, _) = task_step(task_start(task_id), events[0]);
    let start = scene::scene_start(task_id, script.scenes[0]);
    assert(events.drop_first() =~= smooth_events(replies));
    generation_completes(next, Seq::empty(), start, script.scenes.drop_first(), replies);
}

proof fn prompts_bring_to_end(
    task_id: i64,
    current: SceneState,
    rest: Seq<SceneView>,
    replies: Seq<Result<LlmResultView, AppErrorView>>,
)
    requires
        scene::scene_wf(current),
        scene::scene_context(current) is Some,
        replies.len() == scene::prompts_to_come(current) + script_prompts(rest),
        forall|i: int| 0 <= i < replies.len() ==> (#[trigger] replies[i]) is Ok,
    ensures
        brings_rest_to_end(task_id, current, rest, replies),
    decreases replies.len(),
{
    script_prompts_bounds(rest);
    scene::each_reply_brings_the_end_nearer(current, replies[0]);
    scene::scene_step_keeps_total(current, replies);
    scene::replies_to_come_bounds(current, replies);
    let after = scene::scene_step(current, replies[0])->Ok_0;
    let left = replies.drop_first();
    let n = scene::replies_to_come(current, replies) as int;
    assert forall|i: int| 0 <= i < left.len() implies (#[trigger] left[i]) is Ok by {
        assert(left[i] == replies[i + 1]);
    }
    assert(replies.take(n)[0] == replies[0]);
    assert(replies.take(n).drop_first() =~= left.take(n - 1));
    assert(left.skip(n - 1) =~= replies.skip(n));
    if scene::scene_context(after) is Some {
        prompts_bring_to_end(task_id, after, rest, left);
    } else {
        assert(left.skip(0) =~= left);
        if rest.len() > 0 {
            let start = scene::scene_start(task_id, rest[0]);
            prompts_bring_to_end(task_id, start, rest.drop_first(), left);
        }
    }
}

/// A task whose script has scenes, and of which nothing fails, ends well once as many prompts are
/// generated as its scenes need.
pub proof fn task_without_failures_completes(
    task_id: i64,
    script: ScriptView,
    replies: Seq<Result<LlmResultView, AppErrorView>>,
)
    requires
        script.scenes.len() > 0,
        replies.len() == script_prompts(script.scenes),
        forall|i: int| 0 <= i < replies.len() ==> (#[trigger] replies[i]) is Ok,
    ensures
        task_run(
            task_start(task_id),
            seq![TaskEventView::ScriptFetched(Ok(Some(script)))] + smooth_events(replies),
        ) matches Some((_, actions)) && actions.len() > 0 && (
        actions.last() matches TaskActionView::Finish(Ok(_))),
{
    let start = scene::scene_start(task_id, script.scenes[0]);
    prompts_bring_to_end(task_id, start, script.scenes.drop_first(), replies);
    task_completes_unless_a_scene_fails(task_id, script, replies);
}

/// What is said of a task whose script is missing or has no scenes names the task.
pub proof fn failed_tasks_are_named(task_id: i64)
    ensures
        mongo::missing_script(task_id) == AppErrorView::TaskFailed(
            "Script not found for task_id="@ + text::signed_decimal(task_id as int),
        ),
        no_scenes(task_id) == AppErrorView::TaskFailed(
            "Script for task_id="@ + text::signed_decimal(task_id as int) + " has no scenes"@,
        ),
        task_start(task_id).task_id == task_id,
        task_start(task_id).stage is Fetching,
{
}

/// Once its script is there, a task turns to its first scene, and after each scene to the next: it
/// asks for the video prompt of that scene, from its description.
pub proof fn scenes_come_in_order(s: TaskState, e: TaskEventView)
    requires
        task_wf(s),
        task_expects(s, e),
    ensures
        ({
            let (next, action) = task_step(s, e);
            let scenes = match (s.stage, e) {
                (
                    TaskStageView::Fetching,
                    TaskEventView::ScriptFetched(Ok(Some(script))),
                ) => script.scenes,
                (
                    TaskStageView::Generating { current, rest, .. },
                    TaskEventView::Generated(reply),
                ) => if scene::scene_step(current, reply) matches Ok(after) && after.stage
                    is Complete {
                    rest
                } else {
                    Seq::empty()
                },
                _ => Seq::empty(),
            };
            scenes.len() > 0 ==> {
                &&& action matches TaskActionView::Generate(ctx) && {
                    &&& ctx.prompt_type == PromptType::VideoPrompt
                    &&& ctx.scene_index == scenes[0].scene_index
                    &&& ctx.storyboard_index is None
                    &&& scenes[0].description matches Some(d) ==> ctx.scene_description == d
                    &&& scenes[0].description is None ==> ctx.scene_description.len() == 0
                }
                &&& next.task_id == s.task_id
                &&& next.stage matches TaskStageView::Generating { current, rest, .. } && {
                    &&& current.task_id == s.task_id
                    &&& current.scene == scenes[0]
                    &&& rest == scenes.drop_first()
                }
            }
        }),
{
}

/// Within a scene a task asks for what the scene needs next.
pub proof fn tasks_ask_for_what_the_scene_needs(s: TaskState, reply: Result<LlmResultView, AppErrorView>)
    requires
        task_wf(s),
        s.stage is Generating,
    ensures
        ({
            let current = s.stage->current;
            let (next, action) = task_step(s, TaskEventView::Generated(reply));
            scene::scene_step(current, reply) matches Ok(after) ==> (
            scene::scene_context(after) matches Some(ctx) ==> {
                &&& action == TaskActionView::Generate(ctx)
                &&& next.task_id == s.task_id
                &&& next.stage matches TaskStageView::Generating { current: c, rest, .. } && c
                    == after && rest == s.stage->rest
            })
        }),
{
}

/// The records of a task whose prompts are being generated.
spec fn records_so_far(s: TaskState) -> Seq<MediaPromptView> {
    match s.stage {
        TaskStageView::Generating { prompts, current, .. } => prompts + scene::all_records(current),
        _ => Seq::empty(),
    }
}

proof fn replies_add_records(s: TaskState, reply: Result<LlmResultView, AppErrorView>)
    requires
        task_wf(s),
        s.stage is Generating,
        !(task_step(s, TaskEventView::Generated(reply)).1 is Finish),
    ensures
        ({
            let (next, action) = task_step(s, TaskEventView::Generated(reply));
            let all = match action {
                TaskActionView::WritePrompts(all) => all,
                _ => records_so_far(next),
            };
            let ctx = scene::scene_context(s.stage->current)->0;
            let p = all.last();
            &&& task_wf(next)
            &&& next.task_id == s.task_id
            &&& all == records_so_far(s).push(p)
            &&& action is WritePrompts || action is Generate
            &&& action is Generate ==> next.stage is Generating && action
                == TaskActionView::Generate(scene::scene_context(next.stage->current)->0)
            &&& action is WritePrompts ==> next.stage is Writing
            &&& p.task_id == s.task_id
            &&& p.scene_index == ctx.scene_index
            &&& p.storyboard_index == ctx.storyboard_index
            &&& p.prompt_type == ctx.prompt_type
            &&& reply matches Ok(v) ==> {
                &&& p.status == prompt::PromptStatus::Success
                &&& p.prompt_content == Some(v.content)
                &&& p.error_message is None && p.llm_error_code is None
                &&& p.llm_response_snippet is None
                &&& p.llm_duration_ms == Some(v.metrics.duration_ms)
                &&& p.token_usage == v.metrics.token_usage
                &&& p.llm_retries == prompt::stored_retries(v.metrics.retries)
            }
            &&& reply matches Err(e) ==> {
                &&& p.status == prompt::PromptStatus::Failed
                &&& p.prompt_content is None && p.token_usage is None
                &&& p.error_message == Some(error::error_text(e))
                &&& e matches AppErrorView::Llm(l) ==> {
                    &&& p.llm_error_code == l.error_code
                    &&& p.llm_response_snippet == l.response_snippet
                    &&& p.llm_duration_ms == l.duration_ms
                    &&& l.retries matches Some(n) ==> p.llm_retries == prompt::stored_retries(n)
                    &&& l.retries is None ==> p.llm_retries is None
                }
                &&& !(e is Llm) ==> {
                    &&& p.llm_error_code is None && p.llm_response_snippet is None
                    &&& p.llm_duration_ms is None && p.llm_retries is None
                }
            }
        }),
{
    let current = s.stage->current;
    let prompts = s.stage->prompts;
    let rest = s.stage->rest;
    scene::scene_replies_are_recorded_under_their_context(current, reply);
    scene::each_reply_brings_the_end_nearer(current, reply);
    let after = scene::scene_step(current, reply)->Ok_0;
    let p = scene::all_records(after).last();
    let (next, action) = task_step(s, TaskEventView::Generated(reply));
    if scene::scene_context(after) is Some {
        assert(records_so_far(next) =~= records_so_far(s).push(p));
    } else {
        let all = prompts + after.prompts;
        assert(all =~= records_so_far(s).push(p));
        if rest.len() > 0 {
            assert(scene::all_records(scene::scene_start(s.task_id, rest[0])) =~= Seq::<
                MediaPromptView,
            >::empty());
            assert(records_so_far(next) =~= all);
        }
    }
}

proof fn records_match_contexts(s: TaskState, events: Seq<TaskEventView>)
    requires
        task_wf(s),
        s.stage is Generating,
        task_run(s, events) matches Some((_, actions)) && actions.len() > 0 && (
        actions.last() matches TaskActionView::Finish(Ok(_))),
    ensures
        ({
            let n = events.len() - 2;
            let actions = (task_run(s, events)->0).1;
            let had = records_so_far(s).len();
            &&& n > 0 && actions.len() == events.len()
            &&& actions[n - 1] matches TaskActionView::WritePrompts(all) && {
                &&& all.len() == had + n
                &&& forall|i: int| 0 <= i < had ==> #[trigger] all[i] == records_so_far(s)[i]
                &&& forall|i: int|
                    0 <= i < n ==> ({
                        let p = #[trigger] all[had + i];
                        let ctx = if i == 0 {
                            scene::scene_context(s.stage->current)->0
                        } else {
                            actions[i - 1]->Generate_0
                        };
                        let reply = events[i]->Generated_0;
                        &&& i > 0 ==> actions[i - 1] is Generate
                        &&& events[i] is Generated
                        &&& p.task_id == s.task_id
                        &&& p.scene_index == ctx.scene_index
                        &&& p.storyboard_index == ctx.storyboard_index
                        &&& p.prompt_type == ctx.prompt_type
                        &&& reply matches Ok(v) ==> {
                            &&& p.status == prompt::PromptStatus::Success
                            &&& p.prompt_content == Some(v.content)
                            &&& p.error_message is None && p.llm_error_code is None
                            &&& p.llm_response_snippet is None
                            &&& p.llm_duration_ms == Some(v.metrics.duration_ms)
                            &&& p.token_usage == v.metrics.token_usage
                            &&& p.llm_retries == prompt::stored_retries(v.metrics.retries)
                        }
                        &&& reply matches Err(e) ==> {
                            &&& p.status == prompt::PromptStatus::Failed
                            &&& p.prompt_content is None && p.token_usage is None
                            &&& p.error_message == Some(error::error_text(e))
                            &&& e matches AppErrorView::Llm(l) ==> {
                                &&& p.llm_error_code == l.error_code
                                &&& p.llm_response_snippet == l.response_snippet
                                &&& p.llm_duration_ms == l.duration_ms
                                &&& l.retries matches Some(n) ==> p.llm_retries == prompt::stored_retries(n)
                                &&& l.retries is None ==> p.llm_retries is None
                            }
                            &&& !(e is Llm) ==> {
                                &&& p.llm_error_code is None && p.llm_response_snippet is None
                                &&& p.llm_duration_ms is None && p.llm_retries is None
                            }
                        }
                    })
            }
        }),
    decreases events.len(),
{
    let (next, action) = task_step(s, events[0]);
    let tail = events.drop_first();
    let reply = events[0]->Generated_0;
    let n = events.len() - 2;
    let actions = (task_run(s, events)->0).1;
    let later = (task_run(next, tail)->0).1;
    let had = records_so_far(s).len();
    assert(actions =~= seq![action] + later);
    if action is Finish {
        assert(tail.len() == 0);
        each_action_follows_its_event(s, events[0]);
    } else {
        replies_add_records(s, reply);
        assert(later.len() > 0 && later.last() == actions.last());
        if action is WritePrompts {
            writing_comes_to_publishing(next, tail);
        } else {
            records_match_contexts(next, tail);
            let all = later[n - 2]->WritePrompts_0;
            assert forall|i: int| 0 <= i < had implies #[trigger] all[i] == records_so_far(s)[i] by {
                assert(records_so_far(next)[i] == records_so_far(s)[i]);
                assert(all[i] == records_so_far(next)[i]);
            }
            assert(all[had as int] == records_so_far(next)[had as int]);
            assert forall|i: int| 0 <= i < n implies ({
                let p = #[trigger] all[had + i];
                let ctx = if i == 0 {
                    scene::scene_context(s.stage->current)->0
                } else {
                    actions[i - 1]->Generate_0
                };
                let reply = events[i]->Generated_0;
                &&& i > 0 ==> actions[i - 1] is Generate
                &&& events[i] is Generated
                &&& p.task_id == s.task_id
                &&& p.scene_index == ctx.scene_index
                &&& p.storyboard_index == ctx.storyboard_index
                &&& p.prompt_type == ctx.prompt_type
                &&& reply matches Ok(v) ==> {
                    &&& p.status == prompt::PromptStatus::Success
                    &&& p.prompt_content == Some(v.content)
                    &&& p.error_message is None && p.llm_error_code is None
                    &&& p.llm_response_snippet is None
                    &&& p.llm_duration_ms == Some(v.metrics.duration_ms)
                    &&& p.token_usage == v.metrics.token_usage
                    &&& p.llm_retries == prompt::stored_retries(v.metrics.retries)
                }
                &&& reply matches Err(e) ==> {
                    &&& p.status == prompt::PromptStatus::Failed
                    &&& p.prompt_content is None && p.token_usage is None
                    &&& p.error_message == Some(error::error_text(e))
                    &&& e matches AppErrorView::Llm(l) ==> {
                        &&& p.llm_error_code == l.error_code
                        &&& p.llm_response_snippet == l.response_snippet
                        &&& p.llm_duration_ms == l.duration_ms
                        &&& l.retries matches Some(n) ==> p.llm_retries == prompt::stored_retries(n)
                        &&& l.retries is None ==> p.llm_retries is None
                    }
                    &&& !(e is Llm) ==> {
                        &&& p.llm_error_code is None && p.llm_response_snippet is None
                        &&& p.llm_duration_ms is None && p.llm_retries is None
                    }
                }
            }) by {
                if i > 0 {
                    assert(events[i] == tail[i - 1]);
                    assert(all[(had + 1) + (i - 1)] == all[had + i]);
                    if i > 1 {
                        assert(actions[i - 1] == later[i - 2]);
                    }
                }
            }
        }
    }
}

/// A task that ends well wrote one record for each prompt that it asked for, in the order in which it
/// asked: under the task, and under the type, scene and storyboard of that prompt's context, with all
/// that the reply to it says.
pub proof fn each_prompt_asked_for_is_written(task_id: i64, events: Seq<TaskEventView>)
    requires
        task_run(task_start(task_id), events) matches Some((_, actions)) && actions.len() > 0 && (
        actions.last() matches TaskActionView::Finish(Ok(_))),
    ensures
        ({
            let n = events.len() - 3;
            let actions = (task_run(task_start(task_id), events)->0).1;
            &&& n > 0 && actions.len() == events.len()
            &&& actions[n] matches TaskActionView::WritePrompts(all) && {
                &&& all.len() == n
                &&& forall|i: int|
                    0 <= i < n ==> ({
                        let p = #[trigger] all[i];
                        let ctx = actions[i]->Generate_0;
                        let reply = events[i + 1]->Generated_0;
                        &&& actions[i] is Generate
                        &&& events[i + 1] is Generated
                        &&& p.task_id == task_id
                        &&& p.scene_index == ctx.scene_index
                        &&& p.storyboard_index == ctx.storyboard_index
                        &&& p.prompt_type == ctx.prompt_type
                        &&& reply matches Ok(v) ==> {
                            &&& p.status == prompt::PromptStatus::Success
                            &&& p.prompt_content == Some(v.content)
                            &&& p.error_message is None && p.llm_error_code is None
                            &&& p.llm_response_snippet is None
                            &&& p.llm_duration_ms == Some(v.metrics.duration_ms)
                            &&& p.token_usage == v.metrics.token_usage
                            &&& p.llm_retries == prompt::stored_retries(v.metrics.retries)
                        }
                        &&& reply matches Err(e) ==> {
                            &&& p.status == prompt::PromptStatus::Failed
                            &&& p.prompt_content is None && p.token_usage is None
                            &&& p.error_message == Some(error::error_text(e))
                            &&& e matches AppErrorView::Llm(l) ==> {
                                &&& p.llm_error_code == l.error_code
                                &&& p.llm_response_snippet == l.response_snippet
                                &&& p.llm_duration_ms == l.duration_ms
                                &&& l.retries matches Some(n) ==> p.llm_retries == prompt::stored_retries(n)
                                &&& l.retries is None ==> p.llm_retries is None
                            }
                            &&& !(e is Llm) ==> {
                                &&& p.llm_error_code is None && p.llm_response_snippet is None
                                &&& p.llm_duration_ms is None && p.llm_retries is None
                            }
                        }
                    })
            }
        }),
{
    let s = task_start(task_id);
    let (next, action) = task_step(s, events[0]);
    let tail = events.drop_first();
    let actions = (task_run(s, events)->0).1;
    let later = (task_run(next, tail)->0).1;
    assert(actions =~= seq![action] + later);
    if next.stage is Finished {
        assert(tail.len() == 0);
    } else {
        let n = events.len() - 3;
        assert(later.len() > 0 && later.last() == actions.last());
        records_match_contexts(next, tail);
        assert(records_so_far(next).len() == 0);
        let all = actions[n]->WritePrompts_0;
        assert(actions[n] == later[n - 1]);
        assert forall|i: int| 0 <= i < n implies ({
            let p = #[trigger] all[i];
            let ctx = actions[i]->Generate_0;
            let reply = events[i + 1]->Generated_0;
            &&& actions[i] is Generate
            &&& events[i + 1] is Generated
            &&& p.task_id == task_id
            &&& p.scene_index == ctx.scene_index
            &&& p.storyboard_index == ctx.storyboard_index
            &&& p.prompt_type == ctx.prompt_type
            &&& reply matches Ok(v) ==> {
                &&& p.status == prompt::PromptStatus::Success
                &&& p.prompt_content == Some(v.content)
                &&& p.error_message is None && p.llm_error_code is None
                &&& p.llm_response_snippet is None
                &&& p.llm_duration_ms == Some(v.metrics.duration_ms)
                &&& p.token_usage == v.metrics.token_usage
                &&& p.llm_retries == prompt::stored_retries(v.metrics.retries)
            }
            &&& reply matches Err(e) ==> {
                &&& p.status == prompt::PromptStatus::Failed
                &&& p.prompt_content is None && p.token_usage is None
                &&& p.error_message == Some(error::error_text(e))
                &&& e matches AppErrorView::Llm(l) ==> {
                    &&& p.llm_error_code == l.error_code
                    &&& p.llm_response_snippet == l.response_snippet
                    &&& p.llm_duration_ms == l.duration_ms
                    &&& l.retries matches Some(n) ==> p.llm_retries == prompt::stored_retries(n)
                    &&& l.retries is None ==> p.llm_retries is None
                }
                &&& !(e is Llm) ==> {
                    &&& p.llm_error_code is None && p.llm_response_snippet is None
                    &&& p.llm_duration_ms is None && p.llm_retries is None
                }
            }
        }) by {
            assert(all[0 + i] == all[i]);
            assert(events[i + 1] == tail[i]);
            if i > 0 {
                assert(actions[i] == later[i - 1]);
            }
        }
    }
}

/// The contents of an action are what it asks for.
pub proof fn action_contents(a: TaskAction)
    ensures
        a matches TaskAction::FetchScript { task_id } ==> a@ == (TaskActionView::FetchScript {
            task_id,
        }),
        a matches TaskAction::Generate(ctx) ==> a@ == TaskActionView::Generate(ctx@),
        a matches TaskAction::WritePrompts(prompts) ==> (a@ matches TaskActionView::WritePrompts(
            all,
        ) && all.len() == prompts@.len() && forall|i: int|
            0 <= i < all.len() ==> #[trigger] all[i] == prompts@[i]@),
        a matches TaskAction::PublishCompletion { task_id } ==> a@
            == (TaskActionView::PublishCompletion { task_id }),
        a matches TaskAction::Finish(Ok(_)) ==> (a@ matches TaskActionView::Finish(Ok(_))),
        a matches TaskAction::Finish(Err(e)) ==> a@ == TaskActionView::Finish(Err(e@)),
{
}

/// The contents of an event are what came of an action.
pub proof fn event_contents(e: TaskEvent)
    ensures
        e matches TaskEvent::ScriptFetched(Ok(Some(s))) ==> e@ == TaskEventView::ScriptFetched(
            Ok(Some(s@)),
        ),
        e matches TaskEvent::ScriptFetched(Ok(None)) ==> e@ == TaskEventView::ScriptFetched(
            Ok(None),
        ),
        e matches TaskEvent::ScriptFetched(Err(x)) ==> e@ == TaskEventView::ScriptFetched(Err(x@)),
        e matches TaskEvent::Generated(Ok(v)) ==> e@ == TaskEventView::Generated(Ok(v@)),
        e matches TaskEvent::Generated(Err(x)) ==> e@ == TaskEventView::Generated(Err(x@)),
        e matches TaskEvent::PromptsWritten(Ok(_)) ==> (e@ matches TaskEventView::PromptsWritten(
            Ok(_),
        )),
        e matches TaskEvent::PromptsWritten(Err(x)) ==> e@ == TaskEventView::PromptsWritten(
            Err(x@),
        ),
        e matches TaskEvent::CompletionPublished(Ok(_)) ==> (
        e@ matches TaskEventView::CompletionPublished(Ok(_))),
        e matches TaskEvent::CompletionPublished(Err(x)) ==> e@
            == TaskEventView::CompletionPublished(Err(x@)),
{
}

/// The contents of an outcome are its error, where it has one.
pub proof fn outcome_contents(r: Result<(), AppError>)
    ensures
        r is Ok <==> outcome_view(r) is Ok,
        r matches Err(e) ==> outcome_view(r) == Err::<(), AppErrorView>(e@),
{
}

} // verus!
