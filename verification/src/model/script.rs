//! The scripts that prompts are generated from, and the message that asks for it.

use vstd::prelude::*;

use crate::text;

verus! {

/// The script document stored for one task.
#[derive(Debug, Clone)]
pub struct ScriptDocument {
    /// The document id in hexadecimal.
    pub id: String,
    pub task_id: i64,
    pub title: Option<String>,
    pub scenes: Vec<Scene>,
}

/// One scene of a script, with its storyboards.
#[derive(Debug, Clone)]
pub struct Scene {
    pub scene_index: i32,
    pub description: Option<String>,
    pub storyboards: Vec<Storyboard>,
}

/// One storyboard of a scene.
#[derive(Debug, Clone)]
pub struct Storyboard {
    pub storyboard_index: i32,
    pub content: Option<String>,
    pub camera_angle: Option<String>,
    pub dialogue: Option<String>,
    pub action: Option<String>,
}

/// The message that asks for a task to be processed.
#[derive(Debug, Clone, Copy, PartialEq, Eq, Structural)]
pub struct TaskMessage {
    pub task_id: i64,
}

/// The contents of a [`ScriptDocument`].
#[verifier::ext_equal]
pub struct ScriptView {
    pub id: Seq<char>,
    pub task_id: i64,
    pub title: Option<Seq<char>>,
    pub scenes: Seq<SceneView>,
}

/// The contents of a [`Scene`].
#[verifier::ext_equal]
pub struct SceneView {
    pub scene_index: i32,
    pub description: Option<Seq<char>>,
    pub storyboards: Seq<StoryboardView>,
}

/// The contents of a [`Storyboard`].
#[verifier::ext_equal]
pub struct StoryboardView {
    pub storyboard_index: i32,
    pub content: Option<Seq<char>>,
    pub camera_angle: Option<Seq<char>>,
    pub dialogue: Option<Seq<char>>,
    pub action: Option<Seq<char>>,
}

impl View for Storyboard {
    type V = StoryboardView;

    open spec fn view(&self) -> StoryboardView {
        StoryboardView {
            storyboard_index: self.storyboard_index,
            content: text::opt_text(self.content),
            camera_angle: text::opt_text(self.camera_angle),
            dialogue: text::opt_text(self.dialogue),
            action: text::opt_text(self.action),
        }
    }
}

impl View for Scene {
    type V = SceneView;

    open spec fn view(&self) -> SceneView {
        SceneView {
            scene_index: self.scene_index,
            description: text::opt_text(self.description),
            storyboards: self.storyboards@.map_values(|s: Storyboard| s@),
        }
    }
}

/// The contents of a list of scenes.
pub open spec fn scene_views(scenes: Seq<Scene>) -> Seq<SceneView> {
    scenes.map_values(|s: Scene| s@)
}

impl View for ScriptDocument {
    type V = ScriptView;

    open spec fn view(&self) -> ScriptView {
        ScriptView {
            id: self.id@,
            task_id: self.task_id,
            title: text::opt_text(self.title),
            scenes: scene_views(self.scenes@),
        }
    }
}

/// The contents of a storyboard are its fields.
pub proof fn storyboard_contents(s: Storyboard)
    ensures
        s@.storyboard_index == s.storyboard_index,
        s.content matches Some(t) ==> s@.content == Some(t@),
        s.content is None ==> s@.content is None,
        s.camera_angle matches Some(t) ==> s@.camera_angle == Some(t@),
        s.camera_angle is None ==> s@.camera_angle is None,
        s.dialogue matches Some(t) ==> s@.dialogue == Some(t@),
        s.dialogue is None ==> s@.dialogue is None,
        s.action matches Some(t) ==> s@.action == Some(t@),
        s.action is None ==> s@.action is None,
{
}

/// The contents of a scene are its fields, its storyboards in order.
pub proof fn scene_contents(s: Scene)
    ensures
        s@.scene_index == s.scene_index,
        s.description matches Some(t) ==> s@.description == Some(t@),
        s.description is None ==> s@.description is None,
        s@.storyboards.len() == s.storyboards@.len(),
        forall|i: int|
            0 <= i < s.storyboards@.len() ==> #[trigger] s@.storyboards[i] == s.storyboards@[i]@,
{
}

/// The contents of a script are its fields, its scenes in order.
pub proof fn script_contents(s: ScriptDocument)
    ensures
        s@.id == s.id@,
        s@.task_id == s.task_id,
        s.title matches Some(t) ==> s@.title == Some(t@),
        s.title is None ==> s@.title is None,
        s@.scenes.len() == s.scenes@.len(),
        forall|i: int| 0 <= i < s.scenes@.len() ==> #[trigger] s@.scenes[i] == s.scenes@[i]@,
{
}

} // verus!
