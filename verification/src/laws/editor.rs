//! Laws of the editor's answers.

use vstd::prelude::*;

use crate::editor::{CommandView, EditorCommand, EditorInfo, EditorStep, StepView};
use crate::json::JsonView;
use crate::ops::EditorOpView;
use crate::{editor, gd_util};

verus! {

/// A scene file of the project is opened, and the answer names it.
pub proof fn law_scene_is_opened(middle: Seq<char>)
    ensures
        ({
            let path = "res://"@ + middle + ".tscn"@;
            editor::op_step(EditorOpView::OpenScene { path }) == Ok::<StepView, Seq<char>>(
                StepView::Command {
                    command: CommandView::OpenScene(path),
                    reply: "Opened "@ + path,
                },
            )
        }),
{
    let start = "res://"@;
    let end = ".tscn"@;
    let path = start + middle + end;
    assert(path.subrange(0, start.len() as int) =~= start);
    assert(path.subrange(path.len() - end.len(), path.len() as int) =~= end);
}

/// Anything else is not opened, and the answer names it.
pub proof fn law_other_file_is_refused(path: Seq<char>)
    requires
        !"res://"@.is_prefix_of(path) || !".tscn"@.is_suffix_of(path),
    ensures
        editor::op_step(EditorOpView::OpenScene { path }) == Err::<StepView, Seq<char>>(
            "Expected a res:// path to a .tscn file, got: "@ + path,
        ),
{
}

/// The other operations are carried out, each by its own command or question,
/// with what they name, and answered in these words.
pub proof fn law_steps(path: Seq<char>, code: Seq<char>, max_depth: i64)
    ensures
        editor::op_step(EditorOpView::GetEditorInfo) == Ok::<StepView, Seq<char>>(StepView::ReadInfo),
        editor::op_step(EditorOpView::GetSceneTree { max_depth }) == Ok::<StepView, Seq<char>>(
            StepView::ReadTree { max_depth },
        ),
        editor::op_step(EditorOpView::SaveAllScenes) == Ok::<StepView, Seq<char>>(
            StepView::Command {
                command: CommandView::SaveAllScenes,
                reply: "All scenes saved"@,
            },
        ),
        editor::op_step(EditorOpView::PlayScene { scene_path: Some(path) }) == Ok::<StepView, Seq<char>>(
            StepView::Command {
                command: CommandView::PlayCustomScene(path),
                reply: "Playing "@ + path,
            },
        ),
        editor::op_step(EditorOpView::PlayScene { scene_path: None }) == Ok::<StepView, Seq<char>>(
            StepView::Command {
                command: CommandView::PlayMainScene,
                reply: "Playing main scene"@,
            },
        ),
        editor::op_step(EditorOpView::StopPlaying) == Ok::<StepView, Seq<char>>(
            StepView::Command { command: CommandView::StopPlaying, reply: "Stopped playing"@ },
        ),
        editor::op_step(EditorOpView::ExecuteScript { code }) == Ok::<StepView, Seq<char>>(
            StepView::RunScript { source: gd_util::script_source(code) },
        ),
{
}

/// The state of the editor is told field by field; a version or a scene that
/// there is not is an empty text.
pub proof fn law_info(info: EditorInfo, i: int)
    ensures
        ({
            let json = editor::info_json(info);
            &&& json is Object
            &&& json->Object_0.dom() == set![
                "godot_version"@,
                "project_name"@,
                "edited_scene"@,
                "open_scenes"@,
                "is_playing"@,
            ]
            &&& json.field("godot_version"@) == Some(
                JsonView::Text(
                    match info.version {
                        Some(version) => version@,
                        None => ""@,
                    },
                ),
            )
            &&& json.field("project_name"@) == Some(JsonView::Text(info.project_name@))
            &&& json.field("edited_scene"@) == Some(
                JsonView::Text(
                    match info.edited_scene {
                        Some(path) => path@,
                        None => ""@,
                    },
                ),
            )
            &&& json.field("is_playing"@) == Some(JsonView::Bool(info.is_playing))
            &&& json.field("open_scenes"@) is Some
            &&& json.field("open_scenes"@)->0 is Array
            &&& json.field("open_scenes"@)->0->Array_0.len() == info.open_scenes@.len()
            &&& 0 <= i < info.open_scenes@.len() ==> json.field("open_scenes"@)->0->Array_0[i]
                == JsonView::Text(info.open_scenes@[i]@)
        }),
{
    reveal_strlit("godot_version");
    reveal_strlit("project_name");
    reveal_strlit("edited_scene");
    reveal_strlit("open_scenes");
    reveal_strlit("is_playing");
    assert("godot_version"@.len() == 13);
    assert("project_name"@.len() == 12 && "project_name"@[0] == 'p');
    assert("edited_scene"@.len() == 12 && "edited_scene"@[0] == 'e');
    assert("open_scenes"@.len() == 11);
    assert("is_playing"@.len() == 10);
    assert(editor::info_json(info)->Object_0.dom() =~= set![
        "godot_version"@,
        "project_name"@,
        "edited_scene"@,
        "open_scenes"@,
        "is_playing"@,
    ]);
}

/// The view of a step tells everything of it.
pub proof fn law_step_is_what_it_holds(step: EditorStep, command: EditorCommand)
    ensures
        match step {
            EditorStep::ReadInfo => step@ == StepView::ReadInfo,
            EditorStep::ReadTree { max_depth } => step@ == (StepView::ReadTree { max_depth }),
            EditorStep::Command { command, reply } => step@ == (StepView::Command {
                command: command@,
                reply: reply@,
            }),
            EditorStep::RunScript { source } => step@ == (StepView::RunScript {
                source: source@,
            }),
        },
        match command {
            EditorCommand::OpenScene(path) => command@ == CommandView::OpenScene(path@),
            EditorCommand::SaveAllScenes => command@ == CommandView::SaveAllScenes,
            EditorCommand::PlayMainScene => command@ == CommandView::PlayMainScene,
            EditorCommand::PlayCustomScene(path) => command@ == CommandView::PlayCustomScene(
                path@,
            ),
            EditorCommand::StopPlaying => command@ == CommandView::StopPlaying,
        },
{
}

/// What is said where no scene is edited.
pub proof fn law_no_edited_scene()
    ensures
        editor::NO_EDITED_SCENE@ == "No scene is currently being edited in the editor"@,
{
}

} // verus!
