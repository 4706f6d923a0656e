//! The editor's side of a job: what the engine has to do for an operation, and
//! what is answered.

use vstd::prelude::*;

use crate::gd_util::{gdscript_source, serialize_node, SceneNode};
use crate::json::{text_array, Fields, Json, JsonView};
use crate::ops::{EditorOp, EditorOpView};
use crate::text::{begins_with, finishes_with};

verus! {

/// A command to the editor that has nothing to say back.
#[derive(Debug)]
pub enum EditorCommand {
    OpenScene(String),
    SaveAllScenes,
    PlayMainScene,
    PlayCustomScene(String),
    StopPlaying,
}

/// What has to be done for an operation.
#[derive(Debug)]
pub enum EditorStep {
    /// Ask the editor for its state; [`editor_info`] answers.
    ReadInfo,
    /// Take a snapshot of the edited scene; [`scene_tree_result`] answers.
    ReadTree { max_depth: i64 },
    /// Give the command, then answer with the text.
    Command { command: EditorCommand, reply: String },
    /// Run the script; `script_result` answers.
    RunScript { source: String },
}

/// What a command is.
#[verifier::ext_equal]
pub enum CommandView {
    OpenScene(Seq<char>),
    SaveAllScenes,
    PlayMainScene,
    PlayCustomScene(Seq<char>),
    StopPlaying,
}

/// What a step is.
#[verifier::ext_equal]
pub enum StepView {
    ReadInfo,
    ReadTree { max_depth: i64 },
    Command { command: CommandView, reply: Seq<char> },
    RunScript { source: Seq<char> },
}

impl View for EditorCommand {
    type V = CommandView;

    open spec fn view(&self) -> CommandView {
        match self {
            EditorCommand::OpenScene(path) => CommandView::OpenScene(path@),
            EditorCommand::SaveAllScenes => CommandView::SaveAllScenes,
            EditorCommand::PlayMainScene => CommandView::PlayMainScene,
            EditorCommand::PlayCustomScene(path) => CommandView::PlayCustomScene(path@),
            EditorCommand::StopPlaying => CommandView::StopPlaying,
        }
    }
}

impl View for EditorStep {
    type V = StepView;

    open spec fn view(&self) -> StepView {
        match self {
            EditorStep::ReadInfo => StepView::ReadInfo,
            EditorStep::ReadTree { max_depth } => StepView::ReadTree { max_depth: *max_depth },
            EditorStep::Command { command, reply } => StepView::Command {
                command: command@,
                reply: reply@,
            },
            EditorStep::RunScript { source } => StepView::RunScript { source: source@ },
        }
    }
}

/// Whether a path is that of a scene file of the project.
pub open spec fn is_scene_path(path: Seq<char>) -> bool {
    "res://"@.is_prefix_of(path) && ".tscn"@.is_suffix_of(path)
}

/// What has to be done for an operation, or why nothing is.
pub open spec fn op_step(op: EditorOpView) -> Result<StepView, Seq<char>> {
    match op {
        EditorOpView::GetEditorInfo => Ok(StepView::ReadInfo),
        EditorOpView::GetSceneTree { max_depth } => Ok(StepView::ReadTree { max_depth }),
        EditorOpView::OpenScene { path } => if is_scene_path(path) {
            Ok(
                StepView::Command {
                    command: CommandView::OpenScene(path),
                    reply: "Opened "@ + path,
                },
            )
        } else {
            Err("Expected a res:// path to a .tscn file, got: "@ + path)
        },
        EditorOpView::SaveAllScenes => Ok(
            StepView::Command {
                command: CommandView::SaveAllScenes,
                reply: "All scenes saved"@,
            },
        ),
        EditorOpView::PlayScene { scene_path: Some(path) } => Ok(
            StepView::Command {
                command: CommandView::PlayCustomScene(path),
                reply: "Playing "@ + path,
            },
        ),
        EditorOpView::PlayScene { scene_path: None } => Ok(
            StepView::Command {
                command: CommandView::PlayMainScene,
                reply: "Playing main scene"@,
            },
        ),
        EditorOpView::StopPlaying => Ok(
            StepView::Command { command: CommandView::StopPlaying, reply: "Stopped playing"@ },
        ),
        EditorOpView::ExecuteScript { code } => Ok(
            StepView::RunScript { source: crate::gd_util::script_source(code) },
        ),
    }
}

fn open_scene(path: &String) -> (r: Result<EditorStep, String>)
    ensures
        match r {
            Ok(step) => op_step(EditorOpView::OpenScene { path: path@ }) == Ok::<
                StepView,
                Seq<char>,
            >(step@),
            Err(message) => op_step(EditorOpView::OpenScene { path: path@ }) == Err::<
                StepView,
                Seq<char>,
            >(message@),
        },
{
    if !begins_with(path.as_str(), "res://") || !finishes_with(path.as_str(), ".tscn") {
        let mut message = "Expected a res:// path to a .tscn file, got: ".to_owned();
        message.append(path.as_str());
        return Err(message);
    }
    let mut reply = "Opened ".to_owned();
    reply.append(path.as_str());
    Ok(EditorStep::Command { command: EditorCommand::OpenScene(path.clone()), reply })
}

fn play_scene(scene_path: &Option<String>) -> (r: EditorStep)
    ensures
        op_step(
            EditorOpView::PlayScene {
                scene_path: match scene_path {
                    Some(path) => Some(path@),
                    None => None,
                },
            },
        ) == Ok::<StepView, Seq<char>>(r@),
{
    match scene_path {
        Some(path) => {
            let mut reply = "Playing ".to_owned();
            reply.append(path.as_str());
            EditorStep::Command { command: EditorCommand::PlayCustomScene(path.clone()), reply }
        },
        None => EditorStep::Command {
            command: EditorCommand::PlayMainScene,
            reply: "Playing main scene".to_owned(),
        },
    }
}

/// Decides what has to be done for an operation.
pub fn execute_op(op: &EditorOp) -> (r: Result<EditorStep, String>)
    ensures
        match r {
            Ok(step) => op_step(op@) == Ok::<StepView, Seq<char>>(step@),
            Err(message) => op_step(op@) == Err::<StepView, Seq<char>>(message@),
        },
{
    match op {
        EditorOp::GetEditorInfo => Ok(EditorStep::ReadInfo),
        EditorOp::GetSceneTree { max_depth } => Ok(
            EditorStep::ReadTree { max_depth: *max_depth },
        ),
        EditorOp::OpenScene { path } => open_scene(path),
        EditorOp::SaveAllScenes => Ok(
            EditorStep::Command {
                command: EditorCommand::SaveAllScenes,
                reply: "All scenes saved".to_owned(),
            },
        ),
        EditorOp::PlayScene { scene_path } => Ok(play_scene(scene_path)),
        EditorOp::StopPlaying => Ok(
            EditorStep::Command {
                command: EditorCommand::StopPlaying,
                reply: "Stopped playing".to_owned(),
            },
        ),
        EditorOp::ExecuteScript { code } => Ok(
            EditorStep::RunScript { source: gdscript_source(code.as_str()) },
        ),
    }
}

/// The editor is told to open nothing but scene files of the project.
pub proof fn law_only_scene_files_are_opened(op: EditorOpView, path: Seq<char>, reply: Seq<char>)
    requires
        op_step(op) == Ok::<StepView, Seq<char>>(
            StepView::Command { command: CommandView::OpenScene(path), reply },
        ),
    ensures
        "res://"@.is_prefix_of(path),
        ".tscn"@.is_suffix_of(path),
        op == (EditorOpView::OpenScene { path }),
{
}

/// The state of the editor.
#[derive(Debug)]
pub struct EditorInfo {
    /// The version of the engine, where it tells one.
    pub version: Option<String>,
    pub project_name: String,
    /// The path of the edited scene, where one is edited.
    pub edited_scene: Option<String>,
    pub open_scenes: Vec<String>,
    pub is_playing: bool,
}

/// A text, or the empty one where there is none.
pub open spec fn text_or_empty(value: Option<String>) -> JsonView {
    match value {
        Some(s) => JsonView::Text(s@),
        None => JsonView::Text(""@),
    }
}

/// The state of the editor as JSON.
pub open spec fn info_json(info: EditorInfo) -> JsonView {
    JsonView::Object(
        Map::<Seq<char>, JsonView>::empty().insert(
            "godot_version"@,
            text_or_empty(info.version),
        ).insert("project_name"@, JsonView::Text(info.project_name@)).insert(
            "edited_scene"@,
            text_or_empty(info.edited_scene),
        ).insert("open_scenes"@, crate::json::texts_view(info.open_scenes@)).insert(
            "is_playing"@,
            JsonView::Bool(info.is_playing),
        ),
    )
}

fn optional_json(value: &Option<String>) -> (r: Json)
    ensures
        r@ == text_or_empty(*value),
{
    match value {
        Some(s) => Json::text(s.as_str()),
        None => Json::text(""),
    }
}

/// Answers with the state of the editor.
pub fn editor_info(info: &EditorInfo) -> (r: Json)
    ensures
        r@ == info_json(*info),
{
    Json::Object(
        Fields::new().with("godot_version", optional_json(&info.version)).with(
            "project_name",
            Json::text(info.project_name.as_str()),
        ).with("edited_scene", optional_json(&info.edited_scene)).with(
            "open_scenes",
            text_array(&info.open_scenes),
        ).with("is_playing", Json::Bool(info.is_playing)),
    )
}

pub const NO_EDITED_SCENE: &'static str = "No scene is currently being edited in the editor";

/// Answers with the tree of the edited scene, where one is edited.
pub fn scene_tree_result(root: Option<&SceneNode>, max_depth: i64) -> (r: Result<Json, String>)
    ensures
        match root {
            Some(node) => r is Ok && r->Ok_0@ == crate::gd_util::node_json(
                node@,
                max_depth as int,
            ),
            None => r is Err && r->Err_0@ == NO_EDITED_SCENE@,
        },
{
    match root {
        Some(node) => Ok(serialize_node(node, max_depth)),
        None => Err(NO_EDITED_SCENE.to_owned()),
    }
}

} // verus!
