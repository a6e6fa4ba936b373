use media_prompt::db::mongo::find_script_by_task_id;
use media_prompt::error::{AppError, LlmError};
use media_prompt::llm::types::{CallMetrics, LlmResult, PromptContext};
use media_prompt::model::prompt::{MediaPrompt, PromptStatus, PromptType};
use media_prompt::model::script::{Scene, ScriptDocument, Storyboard, TaskMessage};
use media_prompt::mq::consumer::{settle, Settlement};
use media_prompt::task::processor::{TaskAction, TaskEvent, TaskProcessor};
use media_prompt::task::scene::{process_scene, SceneRun};
use media_prompt::task::storyboard::{process_storyboard, StoryboardRun};

fn board(index: i32) -> Storyboard {
    Storyboard {
        storyboard_index: index,
        content: Some(format!("board {index}")),
        camera_angle: None,
        dialogue: None,
        action: None,
    }
}

fn scene(index: i32, boards: i32) -> Scene {
    Scene {
        scene_index: index,
        description: Some(format!("scene {index}")),
        storyboards: (1..=boards).map(board).collect(),
    }
}

fn script(scenes: Vec<Scene>) -> ScriptDocument {
    ScriptDocument { id: String::new(), task_id: 7, title: None, scenes }
}

fn good(content: &str) -> Result<LlmResult, AppError> {
    Ok(LlmResult {
        content: content.to_string(),
        metrics: CallMetrics {
            prompt_type: PromptType::VideoPrompt,
            scene_index: 0,
            storyboard_index: None,
            duration_ms: 10,
            token_usage: Some(3),
            retries: 1,
            error: None,
        },
    })
}

fn bad() -> Result<LlmResult, AppError> {
    Err(AppError::Llm(
        LlmError::non_retryable_with_meta(
            400,
            "HTTP_400".to_string(),
            "Client error 400".to_string(),
            Some("why".to_string()),
        )
        .with_attempt_meta(0, 5),
    ))
}

/// Runs a task to its end. `reply` answers for the number of the prompt and its context.
fn run_task(
    found: Result<Option<ScriptDocument>, AppError>,
    reply: impl Fn(usize, &PromptContext) -> Result<LlmResult, AppError>,
    write: Result<(), AppError>,
    publish: Result<(), AppError>,
) -> (Vec<PromptContext>, Vec<Vec<MediaPrompt>>, Vec<i64>, Result<(), AppError>) {
    let mut contexts: Vec<PromptContext> = Vec::new();
    let mut written: Vec<Vec<MediaPrompt>> = Vec::new();
    let mut published: Vec<i64> = Vec::new();
    let mut found = Some(found);
    let mut write = Some(write);
    let mut publish = Some(publish);
    let mut task = TaskProcessor::new(TaskMessage { task_id: 7 });
    let mut action = task.first_action();
    loop {
        let event = match action {
            TaskAction::FetchScript { task_id } => {
                assert_eq!(task_id, 7);
                TaskEvent::ScriptFetched(found.take().unwrap())
            }
            TaskAction::Generate(ctx) => {
                let event = TaskEvent::Generated(reply(contexts.len(), &ctx));
                contexts.push(ctx);
                event
            }
            TaskAction::WritePrompts(prompts) => {
                written.push(prompts);
                TaskEvent::PromptsWritten(write.take().unwrap())
            }
            TaskAction::PublishCompletion { task_id } => {
                published.push(task_id);
                TaskEvent::CompletionPublished(publish.take().unwrap())
            }
            TaskAction::Finish(outcome) => return (contexts, written, published, outcome),
        };
        assert!(task.expects(&event));
        let next = task.process(event);
        task = next.0;
        action = next.1;
    }
}

fn message(outcome: Result<(), AppError>) -> String {
    outcome.unwrap_err().message()
}

#[test]
fn storyboards_generate_in_order() {
    let mut run = StoryboardRun::start(7, 1, &board(2), "desc", "VP", "MV");
    let mut seen: Vec<PromptType> = Vec::new();
    while !run.finished() {
        let ctx = run.next_context();
        assert_eq!(ctx.previous_prompts.len(), seen.len());
        for (i, (t, c)) in ctx.previous_prompts.iter().enumerate() {
            assert_eq!(*t, seen[i]);
            assert_eq!(c.as_str(), seen[i].as_str());
        }
        assert_eq!(ctx.scene_description, "desc");
        assert_eq!(ctx.storyboard_content.as_deref(), Some("board 2"));
        assert_eq!(ctx.video_prompt.as_deref(), Some("VP"));
        assert_eq!(ctx.multi_view_prompt.as_deref(), Some("MV"));
        assert_eq!(ctx.storyboard_index, Some(2));
        seen.push(ctx.prompt_type);
        run = process_storyboard(run, good(ctx.prompt_type.as_str()));
    }
    assert_eq!(seen, PromptType::storyboard_sequence());
    let result = run.into_result();
    assert_eq!(result.storyboard_index, 2);
    assert!(!result.has_error);
    assert_eq!(result.prompts.len(), 5);
    assert!(result.prompts.iter().all(|p| p.status == PromptStatus::Success));
    assert_eq!(result.prompts[0].llm_retries, Some(1));
}

#[test]
fn a_failure_ends_its_storyboard() {
    let run = StoryboardRun::start(7, 1, &board(2), "", "", "");
    let run = process_storyboard(run, good("one"));
    assert!(!run.finished());
    let run = process_storyboard(run, bad());
    assert!(run.finished());
    let result = run.into_result();
    assert!(result.has_error);
    assert_eq!(result.prompts.len(), 2);
    assert_eq!(result.prompts[0].prompt_content.as_deref(), Some("one"));
    let failed = &result.prompts[1];
    assert_eq!(failed.status, PromptStatus::Failed);
    assert_eq!(failed.prompt_type, PromptType::SpatialCompositionDrawing);
    assert_eq!(failed.error_message.as_deref(), Some("LLM error: Client error 400"));
    assert_eq!(failed.llm_error_code.as_deref(), Some("HTTP_400"));
    assert_eq!(failed.llm_response_snippet.as_deref(), Some("why"));
    assert_eq!(failed.llm_duration_ms, Some(5));
    assert_eq!(failed.llm_retries, Some(0));
}

#[test]
fn scenes_go_through_their_storyboards() {
    let mut run = SceneRun::start(7, scene(3, 2));
    let mut contexts: Vec<PromptContext> = Vec::new();
    while let Some(ctx) = run.next_context() {
        let name = format!("p{}", contexts.len());
        contexts.push(ctx);
        run = process_scene(run, good(&name)).unwrap();
    }
    assert_eq!(contexts.len(), 2 + 2 * 5);
    assert_eq!(contexts[0].prompt_type, PromptType::VideoPrompt);
    assert_eq!(contexts[0].video_prompt, None);
    assert_eq!(contexts[1].prompt_type, PromptType::MultiViewPrompt);
    assert_eq!(contexts[1].video_prompt.as_deref(), Some("p0"));
    assert_eq!(contexts[2].multi_view_prompt.as_deref(), Some("p1"));
    assert_eq!(contexts[6].storyboard_index, Some(1));
    assert_eq!(contexts[7].storyboard_index, Some(2));
    assert!(contexts[7].previous_prompts.is_empty());
    let result = run.into_result().unwrap();
    assert_eq!(result.scene_index, 3);
    assert_eq!(result.video_prompt_content, "p0");
    assert_eq!(result.multi_view_prompt_content, "p1");
    assert_eq!(result.failed_storyboards, 0);
    assert_eq!(result.prompts.len(), 12);
    assert_eq!(result.prompts[0].storyboard_index, None);
}

#[test]
fn storyboard_failures_leave_the_scene_going() {
    let run = SceneRun::start(7, scene(3, 2));
    let run = process_scene(run, good("v")).unwrap();
    let run = process_scene(run, good("m")).unwrap();
    let run = process_scene(run, good("t")).unwrap();
    let run = process_scene(run, bad()).unwrap();
    let ctx = run.next_context().unwrap();
    assert_eq!(ctx.storyboard_index, Some(2));
    assert_eq!(ctx.prompt_type, PromptType::TextToImage);
    let run = process_scene(run, bad()).unwrap();
    assert!(run.next_context().is_none());
    let result = run.into_result().unwrap();
    assert_eq!(result.failed_storyboards, 2);
    assert_eq!(result.prompts.len(), 5);
}

#[test]
fn own_prompts_fail_the_scene() {
    let run = SceneRun::start(7, scene(3, 2));
    assert!(process_scene(run, bad()).is_err());
    let run = SceneRun::start(7, scene(3, 2));
    let run = process_scene(run, good("v")).unwrap();
    assert!(process_scene(run, bad()).is_err());
}

#[test]
fn unfinished_scenes_have_no_result() {
    let run = SceneRun::start(7, scene(3, 0));
    let run = run.into_result().unwrap_err();
    let run = process_scene(run, good("v")).unwrap();
    let run = process_scene(run, good("m")).unwrap();
    assert_eq!(run.into_result().unwrap().prompts.len(), 2);
}

#[test]
fn scripts_that_are_missing() {
    let e = find_script_by_task_id(-5, Ok(None)).unwrap_err();
    assert_eq!(e.message(), "Task failed: Script not found for task_id=-5");
    let e = find_script_by_task_id(5, Err(AppError::MongoDb("down".to_string()))).unwrap_err();
    assert_eq!(e.message(), "MongoDB error: down");
    assert_eq!(find_script_by_task_id(5, Ok(Some(script(Vec::new())))).unwrap().task_id, 7);
}

#[test]
fn tasks_write_then_publish() {
    let (contexts, written, published, outcome) = run_task(
        Ok(Some(script(vec![scene(1, 1), scene(2, 0)]))),
        |n, _| good(&format!("p{n}")),
        Ok(()),
        Ok(()),
    );
    assert!(outcome.is_ok());
    assert_eq!(settle(outcome.is_ok()), Settlement::Ack);
    assert_eq!(contexts.len(), 9);
    assert_eq!(published, vec![7]);
    assert_eq!(written.len(), 1);
    let contents: Vec<&str> =
        written[0].iter().map(|p| p.prompt_content.as_deref().unwrap()).collect();
    assert_eq!(contents, vec!["p0", "p1", "p2", "p3", "p4", "p5", "p6", "p7", "p8"]);
    let scenes: Vec<i32> = written[0].iter().map(|p| p.scene_index).collect();
    assert_eq!(scenes, vec![1, 1, 1, 1, 1, 1, 1, 2, 2]);
    assert!(written[0].iter().all(|p| p.task_id == 7));
}

#[test]
fn tasks_survive_storyboard_failures() {
    let (contexts, written, published, outcome) = run_task(
        Ok(Some(script(vec![scene(1, 2)]))),
        |n, _| if n == 3 { bad() } else { good("x") },
        Ok(()),
        Ok(()),
    );
    assert!(outcome.is_ok());
    assert_eq!(contexts.len(), 2 + 2 + 5);
    assert_eq!(published, vec![7]);
    let failed: Vec<usize> = written[0]
        .iter()
        .enumerate()
        .filter(|(_, p)| p.status == PromptStatus::Failed)
        .map(|(i, _)| i)
        .collect();
    assert_eq!(failed, vec![3]);
}

#[test]
fn scene_failures_fail_the_task() {
    for failing in [0usize, 1, 7, 8] {
        let (contexts, written, published, outcome) = run_task(
            Ok(Some(script(vec![scene(1, 1), scene(2, 1)]))),
            |n, _| if n == failing { bad() } else { good("x") },
            Ok(()),
            Ok(()),
        );
        assert_eq!(contexts.len(), failing + 1);
        assert!(written.is_empty());
        assert!(published.is_empty());
        assert_eq!(settle(outcome.is_ok()), Settlement::Nack { requeue: false });
        assert_eq!(message(outcome), "LLM error: Client error 400");
    }
}

#[test]
fn tasks_without_script_or_scenes_fail() {
    let (_, written, _, outcome) = run_task(Ok(None), |_, _| good("x"), Ok(()), Ok(()));
    assert_eq!(message(outcome), "Task failed: Script not found for task_id=7");
    assert!(written.is_empty());
    let (_, _, _, outcome) =
        run_task(Ok(Some(script(Vec::new()))), |_, _| good("x"), Ok(()), Ok(()));
    assert_eq!(message(outcome), "Task failed: Script for task_id=7 has no scenes");
    let (_, _, _, outcome) =
        run_task(Err(AppError::MongoDb("down".to_string())), |_, _| good("x"), Ok(()), Ok(()));
    assert_eq!(message(outcome), "MongoDB error: down");
}

#[test]
fn failed_writes_are_not_published() {
    let (_, written, published, outcome) = run_task(
        Ok(Some(script(vec![scene(1, 0)]))),
        |_, _| good("x"),
        Err(AppError::MySql("full".to_string())),
        Ok(()),
    );
    assert_eq!(written.len(), 1);
    assert!(published.is_empty());
    assert_eq!(message(outcome), "MySQL error: full");
}

#[test]
fn failed_publishing_fails_the_task() {
    let (_, _, published, outcome) = run_task(
        Ok(Some(script(vec![scene(1, 0)]))),
        |_, _| good("x"),
        Ok(()),
        Err(AppError::RabbitMq("closed".to_string())),
    );
    assert_eq!(published, vec![7]);
    assert_eq!(settle(outcome.is_ok()), Settlement::Nack { requeue: false });
    assert_eq!(message(outcome), "RabbitMQ error: closed");
}

#[test]
fn tasks_expect_what_they_asked_for() {
    let task = TaskProcessor::new(TaskMessage { task_id: 1 });
    assert!(task.expects(&TaskEvent::ScriptFetched(Ok(None))));
    assert!(!task.expects(&TaskEvent::Generated(bad())));
    assert!(!task.expects(&TaskEvent::PromptsWritten(Ok(()))));
    let (task, _) = task.process(TaskEvent::ScriptFetched(Ok(None)));
    assert!(!task.expects(&TaskEvent::ScriptFetched(Ok(None))));
    assert!(!task.expects(&TaskEvent::CompletionPublished(Ok(()))));
}

#[test]
fn every_storyboard_may_fail() {
    let (contexts, written, published, outcome) = run_task(
        Ok(Some(script(vec![scene(1, 3), scene(2, 1)]))),
        |_, ctx| if ctx.storyboard_index.is_some() { bad() } else { good("x") },
        Ok(()),
        Ok(()),
    );
    assert!(outcome.is_ok());
    assert_eq!(contexts.len(), 2 + 3 + 2 + 1);
    assert_eq!(written[0].len(), contexts.len());
    assert_eq!(published, vec![7]);
}
