//! Editor operations: what a tool call asks of the editor.

use vstd::prelude::*;

use crate::codec::compact_text;
use crate::json::{Json, JsonView};
use crate::text::{read_integer, same};
use crate::tools::{render_tools, Param, ParamKind, ParamView, Tool, ToolView};

verus! {

/// One operation that a tool call asks of the editor.
#[derive(Debug)]
pub enum EditorOp {
    GetEditorInfo,
    GetSceneTree { max_depth: i64 },
    OpenScene { path: String },
    SaveAllScenes,
    PlayScene { scene_path: Option<String> },
    StopPlaying,
    ExecuteScript { code: String },
}

/// What an editor operation is.
pub enum EditorOpView {
    GetEditorInfo,
    GetSceneTree { max_depth: i64 },
    OpenScene { path: Seq<char> },
    SaveAllScenes,
    PlayScene { scene_path: Option<Seq<char>> },
    StopPlaying,
    ExecuteScript { code: Seq<char> },
}

impl View for EditorOp {
    type V = EditorOpView;

    open spec fn view(&self) -> EditorOpView {
        match self {
            EditorOp::GetEditorInfo => EditorOpView::GetEditorInfo,
            EditorOp::GetSceneTree { max_depth } => EditorOpView::GetSceneTree {
                max_depth: *max_depth,
            },
            EditorOp::OpenScene { path } => EditorOpView::OpenScene { path: path@ },
            EditorOp::SaveAllScenes => EditorOpView::SaveAllScenes,
            EditorOp::PlayScene { scene_path } => EditorOpView::PlayScene {
                scene_path: match scene_path {
                    Some(path) => Some(path@),
                    None => None,
                },
            },
            EditorOp::StopPlaying => EditorOpView::StopPlaying,
            EditorOp::ExecuteScript { code } => EditorOpView::ExecuteScript { code: code@ },
        }
    }
}

impl Clone for EditorOp {
    fn clone(&self) -> (r: EditorOp)
        ensures
            r@ == self@,
    {
        match self {
            EditorOp::GetEditorInfo => EditorOp::GetEditorInfo,
            EditorOp::GetSceneTree { max_depth } => EditorOp::GetSceneTree {
                max_depth: *max_depth,
            },
            EditorOp::OpenScene { path } => EditorOp::OpenScene { path: path.clone() },
            EditorOp::SaveAllScenes => EditorOp::SaveAllScenes,
            EditorOp::PlayScene { scene_path } => EditorOp::PlayScene {
                scene_path: match scene_path {
                    Some(path) => Some(path.clone()),
                    None => None,
                },
            },
            EditorOp::StopPlaying => EditorOp::StopPlaying,
            EditorOp::ExecuteScript { code } => EditorOp::ExecuteScript { code: code.clone() },
        }
    }
}

pub const GET_EDITOR_INFO: &'static str = "get_editor_info";

pub const GET_SCENE_TREE: &'static str = "get_scene_tree";

pub const OPEN_SCENE: &'static str = "open_scene";

pub const SAVE_ALL_SCENES: &'static str = "save_all_scenes";

pub const PLAY_SCENE: &'static str = "play_scene";

pub const STOP_PLAYING: &'static str = "stop_playing";

pub const EXECUTE_EDITOR_SCRIPT: &'static str = "execute_editor_script";

pub const GET_EDITOR_INFO_TEXT: &'static str = "Get live state of the running Godot editor: version, project name, currently edited scene, open scenes, and whether a scene is playing.";

pub const GET_SCENE_TREE_TEXT: &'static str = "Get the node tree (name, type, script, children) of the scene currently being edited in the Godot editor.";

pub const MAX_DEPTH_TEXT: &'static str = "Maximum tree depth to serialize (default 16)";

pub const OPEN_SCENE_TEXT: &'static str = "Open a scene file in the live Godot editor.";

pub const PATH_TEXT: &'static str = "res:// path to a .tscn file";

pub const SAVE_ALL_SCENES_TEXT: &'static str = "Save all open scenes in the Godot editor.";

pub const PLAY_SCENE_TEXT: &'static str = "Run the project from the editor (F5). Optionally play a specific scene instead of the main scene.";

pub const SCENE_PATH_TEXT: &'static str = "Optional res:// path of the scene to play; defaults to the project main scene";

pub const STOP_PLAYING_TEXT: &'static str = "Stop the scene currently being played from the editor.";

pub const EXECUTE_EDITOR_SCRIPT_TEXT: &'static str = "Execute arbitrary GDScript inside the live Godot editor with full EditorInterface access. The code runs as the body of `func run():` in a @tool script; its return value is serialized back. Example: `return EditorInterface.get_edited_scene_root().name`";

pub const CODE_TEXT: &'static str = "GDScript statements to execute in the editor";

/// The tree depth that is shown where a call names none.
pub const DEFAULT_DEPTH: i64 = 16;

/// The tools of the editor.
pub open spec fn editor_tools() -> Seq<ToolView> {
    seq![
        ToolView {
            name: GET_EDITOR_INFO@,
            description: GET_EDITOR_INFO_TEXT@,
            params: Seq::empty(),
        },
        ToolView {
            name: GET_SCENE_TREE@,
            description: GET_SCENE_TREE_TEXT@,
            params: seq![
                ParamView {
                    name: "max_depth"@,
                    kind: ParamKind::Number,
                    description: MAX_DEPTH_TEXT@,
                    required: false,
                },
            ],
        },
        ToolView {
            name: OPEN_SCENE@,
            description: OPEN_SCENE_TEXT@,
            params: seq![
                ParamView {
                    name: "path"@,
                    kind: ParamKind::Text,
                    description: PATH_TEXT@,
                    required: true,
                },
            ],
        },
        ToolView {
            name: SAVE_ALL_SCENES@,
            description: SAVE_ALL_SCENES_TEXT@,
            params: Seq::empty(),
        },
        ToolView {
            name: PLAY_SCENE@,
            description: PLAY_SCENE_TEXT@,
            params: seq![
                ParamView {
                    name: "scene_path"@,
                    kind: ParamKind::Text,
                    description: SCENE_PATH_TEXT@,
                    required: false,
                },
            ],
        },
        ToolView {
            name: STOP_PLAYING@,
            description: STOP_PLAYING_TEXT@,
            params: Seq::empty(),
        },
        ToolView {
            name: EXECUTE_EDITOR_SCRIPT@,
            description: EXECUTE_EDITOR_SCRIPT_TEXT@,
            params: seq![
                ParamView {
                    name: "code"@,
                    kind: ParamKind::Text,
                    description: CODE_TEXT@,
                    required: true,
                },
            ],
        },
    ]
}

/// A tool without arguments.
pub(crate) fn plain_tool(name: &'static str, description: &'static str) -> (r: Tool)
    ensures
        r@ == (ToolView { name: name@, description: description@, params: Seq::empty() }),
{
    let tool = Tool { name, description, params: Vec::new() };
    assert(tool@.params =~= Seq::<ParamView>::empty());
    tool
}

/// A tool with one argument.
pub(crate) fn tool_with(name: &'static str, description: &'static str, param: Param) -> (r: Tool)
    ensures
        r@ == (ToolView { name: name@, description: description@, params: seq![param@] }),
{
    let mut params: Vec<Param> = Vec::new();
    params.push(param);
    let tool = Tool { name, description, params };
    assert(tool@.params =~= seq![param@]);
    tool
}

/// MCP tool definitions that the editor serves by `tools/list`.
pub fn tool_definitions() -> (r: Json)
    ensures
        r@ == crate::tools::tools_json(editor_tools()),
{
    let mut tools: Vec<Tool> = Vec::new();
    tools.push(plain_tool(GET_EDITOR_INFO, GET_EDITOR_INFO_TEXT));
    tools.push(
        tool_with(
            GET_SCENE_TREE,
            GET_SCENE_TREE_TEXT,
            Param {
                name: "max_depth",
                kind: ParamKind::Number,
                description: MAX_DEPTH_TEXT,
                required: false,
            },
        ),
    );
    tools.push(
        tool_with(
            OPEN_SCENE,
            OPEN_SCENE_TEXT,
            Param {
                name: "path",
                kind: ParamKind::Text,
                description: PATH_TEXT,
                required: true,
            },
        ),
    );
    tools.push(plain_tool(SAVE_ALL_SCENES, SAVE_ALL_SCENES_TEXT));
    tools.push(
        tool_with(
            PLAY_SCENE,
            PLAY_SCENE_TEXT,
            Param {
                name: "scene_path",
                kind: ParamKind::Text,
                description: SCENE_PATH_TEXT,
                required: false,
            },
        ),
    );
    tools.push(plain_tool(STOP_PLAYING, STOP_PLAYING_TEXT));
    tools.push(
        tool_with(
            EXECUTE_EDITOR_SCRIPT,
            EXECUTE_EDITOR_SCRIPT_TEXT,
            Param {
                name: "code",
                kind: ParamKind::Text,
                description: CODE_TEXT,
                required: true,
            },
        ),
    );
    assert(tools@.map_values(|tool: Tool| tool@) =~= editor_tools());
    render_tools(&tools)
}

/// The depth that the text of a number asks for: the integer that it denotes,
/// or the nearest one of the range; the default where it denotes no integer.
pub open spec fn depth_written(text: Seq<char>) -> i64 {
    match crate::text::whole_number(text) {
        Some(depth) => crate::text::clamped(depth),
        None => DEFAULT_DEPTH,
    }
}

/// The depth to which a call asks for a tree. Any number may name it; the
/// default holds where the call names none, or no number.
pub open spec fn depth_asked(args: JsonView) -> i64 {
    match args.field("max_depth"@) {
        Some(JsonView::Integer(depth)) => depth,
        Some(JsonView::Number(n)) => depth_written(
            crate::codec::json_compact(JsonView::Number(n)),
        ),
        _ => DEFAULT_DEPTH,
    }
}

/// The answer to a call of a tool that there is not.
pub open spec fn unknown_tool(name: Seq<char>) -> Seq<char> {
    "Unknown tool: "@ + name
}

/// What a call of an editor tool asks for, or why it is refused.
pub open spec fn tool_call(name: Seq<char>, args: JsonView) -> Result<EditorOpView, Seq<char>> {
    if name == GET_EDITOR_INFO@ {
        Ok(EditorOpView::GetEditorInfo)
    } else if name == GET_SCENE_TREE@ {
        Ok(EditorOpView::GetSceneTree { max_depth: depth_asked(args) })
    } else if name == OPEN_SCENE@ {
        match args.text_field("path"@) {
            Some(path) => Ok(EditorOpView::OpenScene { path }),
            None => Err("open_scene requires a `path` argument"@),
        }
    } else if name == SAVE_ALL_SCENES@ {
        Ok(EditorOpView::SaveAllScenes)
    } else if name == PLAY_SCENE@ {
        Ok(EditorOpView::PlayScene { scene_path: args.text_field("scene_path"@) })
    } else if name == STOP_PLAYING@ {
        Ok(EditorOpView::StopPlaying)
    } else if name == EXECUTE_EDITOR_SCRIPT@ {
        match args.text_field("code"@) {
            Some(code) => Ok(EditorOpView::ExecuteScript { code }),
            None => Err("execute_editor_script requires a `code` argument"@),
        }
    } else {
        Err(unknown_tool(name))
    }
}

/// Reads the depth that the text of a number asks for.
pub fn read_depth_text(text: &str) -> (r: i64)
    ensures
        r == depth_written(text@),
{
    match read_integer(text) {
        Some(depth) => depth,
        None => DEFAULT_DEPTH,
    }
}

/// The depth that a call asks for.
pub(crate) fn read_depth(args: &Json) -> (r: i64)
    ensures
        r == depth_asked(args@),
{
    let value = match args.get("max_depth") {
        Some(value) => value,
        None => return DEFAULT_DEPTH,
    };
    match value.as_i64() {
        Some(depth) => depth,
        None => match value {
            Json::Number(_) => read_depth_text(compact_text(value).as_str()),
            _ => DEFAULT_DEPTH,
        },
    }
}

/// Says that there is no such tool.
pub(crate) fn unknown_tool_text(name: &str) -> (r: String)
    ensures
        r@ == unknown_tool(name@),
{
    let mut message = "Unknown tool: ".to_owned();
    message.append(name);
    message
}

/// Parse a `tools/call` into an [`EditorOp`].
pub fn parse_tool_call(name: &str, args: &Json) -> (r: Result<EditorOp, String>)
    ensures
        match r {
            Ok(op) => tool_call(name@, args@) == Ok::<EditorOpView, Seq<char>>(op@),
            Err(message) => tool_call(name@, args@) == Err::<EditorOpView, Seq<char>>(message@),
        },
{
    if same(name, GET_EDITOR_INFO) {
        Ok(EditorOp::GetEditorInfo)
    } else if same(name, GET_SCENE_TREE) {
        Ok(EditorOp::GetSceneTree { max_depth: read_depth(args) })
    } else if same(name, OPEN_SCENE) {
        match args.text_field("path") {
            Some(path) => Ok(EditorOp::OpenScene { path: path.to_owned() }),
            None => Err("open_scene requires a `path` argument".to_owned()),
        }
    } else if same(name, SAVE_ALL_SCENES) {
        Ok(EditorOp::SaveAllScenes)
    } else if same(name, PLAY_SCENE) {
        match args.text_field("scene_path") {
            Some(path) => Ok(EditorOp::PlayScene { scene_path: Some(path.to_owned()) }),
            None => Ok(EditorOp::PlayScene { scene_path: None }),
        }
    } else if same(name, STOP_PLAYING) {
        Ok(EditorOp::StopPlaying)
    } else if same(name, EXECUTE_EDITOR_SCRIPT) {
        match args.text_field("code") {
            Some(code) => Ok(EditorOp::ExecuteScript { code: code.to_owned() }),
            None => Err("execute_editor_script requires a `code` argument".to_owned()),
        }
    } else {
        Err(unknown_tool_text(name))
    }
}

/// Whether a tool of that name is among the listed ones.
pub open spec fn lists(tools: Seq<ToolView>, name: Seq<char>) -> bool {
    exists|i: int| 0 <= i < tools.len() && (#[trigger] tools[i]).name == name
}

/// A call is answered as one of an unknown tool exactly where `tools/list`
/// does not list the tool.
pub proof fn law_unknown_iff_unlisted(name: Seq<char>, args: JsonView)
    ensures
        tool_call(name, args) == Err::<EditorOpView, Seq<char>>(unknown_tool(name)) <==> !lists(
            editor_tools(),
            name,
        ),
{
    let tools = editor_tools();
    assert(tools[0].name == GET_EDITOR_INFO@);
    assert(tools[1].name == GET_SCENE_TREE@);
    assert(tools[2].name == OPEN_SCENE@);
    assert(tools[3].name == SAVE_ALL_SCENES@);
    assert(tools[4].name == PLAY_SCENE@);
    assert(tools[5].name == STOP_PLAYING@);
    assert(tools[6].name == EXECUTE_EDITOR_SCRIPT@);
    reveal_strlit("Unknown tool: ");
    reveal_strlit("open_scene requires a `path` argument");
    reveal_strlit("execute_editor_script requires a `code` argument");
    assert(unknown_tool(name)[0] == 'U');
    assert("open_scene requires a `path` argument"@[0] == 'o');
    assert("execute_editor_script requires a `code` argument"@[0] == 'e');
}

/// A call of a listed tool is refused exactly where an argument that the tool
/// lists as required is no text: what `tools/list` asks for is what is asked.
pub proof fn law_required_arguments_decide(i: int, args: JsonView)
    requires
        0 <= i < editor_tools().len(),
    ensures
        tool_call(editor_tools()[i].name, args) is Ok <==> forall|p: int|
            0 <= p < editor_tools()[i].params.len() && (
            #[trigger] editor_tools()[i].params[p]).required ==> args.text_field(
                editor_tools()[i].params[p].name,
            ) is Some,
{
    reveal_strlit("get_editor_info");
    reveal_strlit("get_scene_tree");
    reveal_strlit("open_scene");
    reveal_strlit("save_all_scenes");
    reveal_strlit("play_scene");
    reveal_strlit("stop_playing");
    reveal_strlit("execute_editor_script");
    assert(GET_EDITOR_INFO@.len() == 15);
    assert(GET_SCENE_TREE@.len() == 14);
    assert(OPEN_SCENE@.len() == 10 && OPEN_SCENE@[0] == 'o');
    assert(SAVE_ALL_SCENES@.len() == 15);
    assert(PLAY_SCENE@.len() == 10 && PLAY_SCENE@[0] == 'p');
    assert(STOP_PLAYING@.len() == 12);
    assert(EXECUTE_EDITOR_SCRIPT@.len() == 21);
    let params = editor_tools()[i].params;
    if i == 2 || i == 6 {
        assert(params[0].required);
    }
}

} // verus!
