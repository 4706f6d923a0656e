//! Laws of the editor's tool calls.

use vstd::prelude::*;

use crate::json::JsonView;
use crate::ops::{EditorOp, EditorOpView};
use crate::{codec, ops, text};

verus! {

pub(crate) proof fn lemma_editor_names()
    ensures
        "get_editor_info"@ != "get_scene_tree"@,
        "get_editor_info"@ != "open_scene"@,
        "get_editor_info"@ != "save_all_scenes"@,
        "get_editor_info"@ != "play_scene"@,
        "get_editor_info"@ != "stop_playing"@,
        "get_editor_info"@ != "execute_editor_script"@,
        "get_scene_tree"@ != "open_scene"@,
        "get_scene_tree"@ != "save_all_scenes"@,
        "get_scene_tree"@ != "play_scene"@,
        "get_scene_tree"@ != "stop_playing"@,
        "get_scene_tree"@ != "execute_editor_script"@,
        "open_scene"@ != "save_all_scenes"@,
        "open_scene"@ != "play_scene"@,
        "open_scene"@ != "stop_playing"@,
        "open_scene"@ != "execute_editor_script"@,
        "save_all_scenes"@ != "play_scene"@,
        "save_all_scenes"@ != "stop_playing"@,
        "save_all_scenes"@ != "execute_editor_script"@,
        "play_scene"@ != "stop_playing"@,
        "play_scene"@ != "execute_editor_script"@,
        "stop_playing"@ != "execute_editor_script"@,
{
    reveal_strlit("get_editor_info");
    reveal_strlit("get_scene_tree");
    reveal_strlit("open_scene");
    reveal_strlit("save_all_scenes");
    reveal_strlit("play_scene");
    reveal_strlit("stop_playing");
    reveal_strlit("execute_editor_script");
    assert("get_editor_info"@.len() == 15 && "get_editor_info"@[0] == 'g');
    assert("get_scene_tree"@.len() == 14);
    assert("open_scene"@.len() == 10 && "open_scene"@[0] == 'o');
    assert("save_all_scenes"@.len() == 15 && "save_all_scenes"@[0] == 's');
    assert("play_scene"@.len() == 10 && "play_scene"@[0] == 'p');
    assert("stop_playing"@.len() == 12);
    assert("execute_editor_script"@.len() == 21);
}

/// Tools without arguments ask for their operation, whatever is given to them.
pub proof fn law_plain_calls(args: JsonView)
    ensures
        ops::tool_call("get_editor_info"@, args) == Ok::<EditorOpView, Seq<char>>(
            EditorOpView::GetEditorInfo,
        ),
        ops::tool_call("save_all_scenes"@, args) == Ok::<EditorOpView, Seq<char>>(
            EditorOpView::SaveAllScenes,
        ),
        ops::tool_call("stop_playing"@, args) == Ok::<EditorOpView, Seq<char>>(
            EditorOpView::StopPlaying,
        ),
{
    lemma_editor_names();
}

/// A call for the tree asks for the depth that it names as an integer, for the
/// integer that any other number denotes, and else for 16.
pub proof fn law_tree_call(args: JsonView)
    ensures
        ops::tool_call("get_scene_tree"@, args) matches Ok(EditorOpView::GetSceneTree { max_depth })
            && is_depth_of(args, max_depth),
{
    lemma_editor_names();
}

/// Whether a depth is the one that the arguments of a call for a tree name.
pub open spec fn is_depth_of(args: JsonView, depth: i64) -> bool {
    match args.field("max_depth"@) {
        Some(JsonView::Integer(d)) => depth == d,
        Some(JsonView::Number(n)) => {
            let text = codec::json_compact(JsonView::Number(n));
            match text::whole_number(text) {
                Some(d) => {
                    &&& i64::MIN <= d <= i64::MAX ==> depth == d
                    &&& d > i64::MAX ==> depth == i64::MAX
                    &&& d < i64::MIN ==> depth == i64::MIN
                },
                None => depth == 16,
            }
        },
        _ => depth == 16,
    }
}

/// A call to open a scene asks for the scene at its path, and is refused
/// without one.
pub proof fn law_open_call(args: JsonView)
    ensures
        ops::tool_call("open_scene"@, args) == (match args.field("path"@) {
            Some(JsonView::Text(path)) => Ok::<EditorOpView, Seq<char>>(
                EditorOpView::OpenScene { path },
            ),
            _ => Err("open_scene requires a `path` argument"@),
        }),
{
    lemma_editor_names();
}

/// A call to play asks for the scene at its path, or for the main scene where
/// it names none.
pub proof fn law_play_call(args: JsonView)
    ensures
        ops::tool_call("play_scene"@, args) == (match args.field("scene_path"@) {
            Some(JsonView::Text(path)) => Ok::<EditorOpView, Seq<char>>(
                EditorOpView::PlayScene { scene_path: Some(path) },
            ),
            _ => Ok(EditorOpView::PlayScene { scene_path: None }),
        }),
{
    lemma_editor_names();
}

/// A call to run a script asks for its code, and is refused without any.
pub proof fn law_script_call(args: JsonView)
    ensures
        ops::tool_call("execute_editor_script"@, args) == (match args.field("code"@) {
            Some(JsonView::Text(code)) => Ok::<EditorOpView, Seq<char>>(
                EditorOpView::ExecuteScript { code },
            ),
            _ => Err("execute_editor_script requires a `code` argument"@),
        }),
{
    lemma_editor_names();
}

/// A call of any other tool is refused by its name.
pub proof fn law_other_call(name: Seq<char>, args: JsonView)
    requires
        name != "get_editor_info"@,
        name != "get_scene_tree"@,
        name != "open_scene"@,
        name != "save_all_scenes"@,
        name != "play_scene"@,
        name != "stop_playing"@,
        name != "execute_editor_script"@,
    ensures
        ops::tool_call(name, args) == Err::<EditorOpView, Seq<char>>("Unknown tool: "@ + name),
{
}

/// The view of an operation tells everything of it.
pub proof fn law_op_is_what_it_holds(op: EditorOp)
    ensures
        match op {
            EditorOp::GetEditorInfo => op@ == EditorOpView::GetEditorInfo,
            EditorOp::GetSceneTree { max_depth } => op@ == (EditorOpView::GetSceneTree {
                max_depth,
            }),
            EditorOp::OpenScene { path } => op@ == (EditorOpView::OpenScene { path: path@ }),
            EditorOp::SaveAllScenes => op@ == EditorOpView::SaveAllScenes,
            EditorOp::PlayScene { scene_path: Some(path) } => op@ == (EditorOpView::PlayScene {
                scene_path: Some(path@),
            }),
            EditorOp::PlayScene { scene_path: None } => op@ == (EditorOpView::PlayScene {
                scene_path: None,
            }),
            EditorOp::StopPlaying => op@ == EditorOpView::StopPlaying,
            EditorOp::ExecuteScript { code } => op@ == (EditorOpView::ExecuteScript {
                code: code@,
            }),
        },
{
}

} // verus!
