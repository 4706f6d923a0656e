//! Laws of the tool lists.

use vstd::prelude::*;

use crate::json::JsonView;
use crate::tools::{Param, ParamKind, ParamView, Tool, ToolView};
use crate::{ops, runtime, tools};

verus! {

proof fn lemma_schema_keys()
    ensures
        "name"@ != "description"@,
        "name"@ != "inputSchema"@,
        "description"@ != "inputSchema"@,
        "type"@ != "properties"@,
        "type"@ != "required"@,
        "properties"@ != "required"@,
        "type"@ != "description"@,
        "type"@ != "items"@,
        "description"@ != "items"@,
{
    reveal_strlit("name");
    reveal_strlit("description");
    reveal_strlit("inputSchema");
    reveal_strlit("type");
    reveal_strlit("properties");
    reveal_strlit("required");
    reveal_strlit("items");
    assert("name"@.len() == 4);
    assert("description"@.len() == 11 && "description"@[0] == 'd');
    assert("inputSchema"@.len() == 11 && "inputSchema"@[0] == 'i');
    assert("type"@.len() == 4);
    assert("properties"@.len() == 10);
    assert("required"@.len() == 8);
    assert("items"@.len() == 5);
}

/// A list serves its tools in order, each under its name, with its description
/// and the schema of its arguments.
pub proof fn law_tools_in_order(tools: Seq<ToolView>, i: int)
    ensures
        tools::tools_json(tools) is Array,
        tools::tools_json(tools)->Array_0.len() == tools.len(),
        0 <= i < tools.len() ==> {
            let served = tools::tools_json(tools)->Array_0[i];
            &&& served.field("name"@) == Some(JsonView::Text(tools[i].name))
            &&& served.field("description"@) == Some(JsonView::Text(tools[i].description))
            &&& served.field("inputSchema"@) == Some(tools::input_schema(tools[i].params))
            &&& served->Object_0.dom() == set!["name"@, "description"@, "inputSchema"@]
        },
{
    lemma_schema_keys();
    if 0 <= i < tools.len() {
        let served = tools::tools_json(tools)->Array_0[i];
        assert(served == tools::tool_json(tools[i]));
        assert(served->Object_0.dom() =~= set!["name"@, "description"@, "inputSchema"@]);
    }
}

/// The schema of arguments is that of an object. It has a property for each
/// argument, which tells its type and its description, and no others. It lists
/// the names of the required ones, and nothing where none is required.
pub proof fn law_schema(params: Seq<ParamView>, key: Seq<char>, i: int)
    ensures
        tools::input_schema(params) is Object,
        tools::input_schema(params)->Object_0.dom().subset_of(
            set!["type"@, "properties"@, "required"@],
        ),
        tools::input_schema(params).field("type"@) == Some(JsonView::Text("object"@)),
        tools::input_schema(params).field("properties"@) matches Some(JsonView::Object(props)) && {
            &&& props.dom().contains(key) <==> exists|p: int|
                0 <= p < params.len() && (#[trigger] params[p]).name == key
            &&& 0 <= i < params.len() && params[i].name == key && (forall|p: int|
                i < p < params.len() ==> (#[trigger] params[p]).name != key) ==> describes(
                props[key],
                params[i],
            )
        },
        tools::input_schema(params).field("required"@) is None <==> forall|p: int|
            0 <= p < params.len() ==> !(#[trigger] params[p]).required,
        tools::input_schema(params).field("required"@) matches Some(value) ==> {
            &&& value is Array
            &&& value->Array_0.len() <= params.len()
            &&& value->Array_0.contains(JsonView::Text(key)) <==> exists|p: int|
                0 <= p < params.len() && (#[trigger] params[p]).required && params[p].name == key
        },
{
    lemma_schema_keys();
    lemma_properties(params, key, i);
    lemma_required(params, key);
    let names = tools::required_names(params);
    let texts = names.map_values(|name: Seq<char>| JsonView::Text(name));
    if names.len() > 0 {
        assert(tools::input_schema(params).field("required"@) == Some(JsonView::Array(texts)));
        if texts.contains(JsonView::Text(key)) {
            let k = choose|k: int| 0 <= k < texts.len() && texts[k] == JsonView::Text(key);
            assert(names[k] == key);
        }
        if names.contains(key) {
            let k = choose|k: int| 0 <= k < names.len() && names[k] == key;
            assert(texts[k] == JsonView::Text(key));
        }
    }
}

/// Whether a schema is that of an argument: its type, its description, and that
/// the items of an array are objects.
pub open spec fn describes(schema: JsonView, param: ParamView) -> bool {
    &&& schema is Object
    &&& schema->Object_0.dom().subset_of(set!["type"@, "description"@, "items"@])
    &&& schema.field("description"@) == Some(JsonView::Text(param.description))
    &&& schema.field("type"@) == Some(
        JsonView::Text(
            if param.kind == ParamKind::Number {
                "number"@
            } else if param.kind == ParamKind::Text {
                "string"@
            } else {
                "array"@
            },
        ),
    )
    &&& param.kind != ParamKind::Objects ==> schema.field("items"@) is None
    &&& param.kind == ParamKind::Objects ==> schema.field("items"@) is Some && schema.field(
        "items"@,
    )->0.field("type"@) == Some(JsonView::Text("object"@))
}

proof fn lemma_properties(params: Seq<ParamView>, key: Seq<char>, i: int)
    ensures
        tools::properties(params).dom().contains(key) <==> exists|p: int|
            0 <= p < params.len() && (#[trigger] params[p]).name == key,
        0 <= i < params.len() && params[i].name == key && (forall|p: int|
            i < p < params.len() ==> (#[trigger] params[p]).name != key) ==> describes(
            tools::properties(params)[key],
            params[i],
        ),
    decreases params.len(),
{
    lemma_schema_keys();
    if params.len() > 0 {
        let shorter = params.drop_last();
        let last = params.len() - 1;
        lemma_properties(shorter, key, i);
        assert(params[last] == params.last());
        assert(forall|p: int| 0 <= p < last ==> shorter[p] == params[p]);
        if tools::properties(shorter).dom().contains(key) {
            let p = choose|p: int| 0 <= p < shorter.len() && (#[trigger] shorter[p]).name == key;
            assert(params[p].name == key);
        }
        if exists|p: int| 0 <= p < params.len() && (#[trigger] params[p]).name == key {
            let p = choose|p: int| 0 <= p < params.len() && (#[trigger] params[p]).name == key;
            if p < last {
                assert(shorter[p].name == key);
            }
        }
        assert(describes(tools::param_schema(params.last()), params.last()));
    }
}

proof fn lemma_required(params: Seq<ParamView>, key: Seq<char>)
    ensures
        tools::required_names(params).len() <= params.len(),
        tools::required_names(params).len() == 0 <==> forall|p: int|
            0 <= p < params.len() ==> !(#[trigger] params[p]).required,
        tools::required_names(params).contains(key) <==> exists|p: int|
            0 <= p < params.len() && (#[trigger] params[p]).required && params[p].name == key,
    decreases params.len(),
{
    if params.len() > 0 {
        let shorter = params.drop_last();
        let last = params.len() - 1;
        lemma_required(shorter, key);
        let names = tools::required_names(shorter);
        assert(params[last] == params.last());
        assert(forall|p: int| 0 <= p < last ==> shorter[p] == params[p]);
        if params.last().required {
            let all = names.push(params.last().name);
            assert(all[names.len() as int] == params.last().name);
            if names.contains(key) {
                let k = choose|k: int| 0 <= k < names.len() && names[k] == key;
                assert(all[k] == key);
            }
            if all.contains(key) && params.last().name != key {
                let k = choose|k: int| 0 <= k < all.len() && all[k] == key;
                assert(names[k] == key);
            }
        }
        if names.contains(key) {
            let p = choose|p: int|
                0 <= p < shorter.len() && (#[trigger] shorter[p]).required && shorter[p].name == key;
            assert(params[p].required && params[p].name == key);
        }
        if exists|p: int|
            0 <= p < params.len() && (#[trigger] params[p]).required && params[p].name == key {
            let p = choose|p: int|
                0 <= p < params.len() && (#[trigger] params[p]).required && params[p].name == key;
            if p < last {
                assert(shorter[p].required && shorter[p].name == key);
            }
        }
        if !(forall|p: int| 0 <= p < shorter.len() ==> !(#[trigger] shorter[p]).required) {
            let p = choose|p: int| 0 <= p < shorter.len() && (#[trigger] shorter[p]).required;
            assert(params[p].required);
        }
    }
}

/// Whether a tool has that name and description, and no arguments.
pub open spec fn is_plain(tool: ToolView, name: Seq<char>, description: Seq<char>) -> bool {
    &&& tool.name == name
    &&& tool.description == description
    &&& tool.params.len() == 0
}

/// Whether a tool has that name and description, and that argument alone.
pub open spec fn takes(
    tool: ToolView,
    name: Seq<char>,
    description: Seq<char>,
    param: ParamView,
) -> bool {
    &&& tool.name == name
    &&& tool.description == description
    &&& tool.params == seq![param]
}

/// The editor serves seven tools, under these names, with these descriptions
/// and arguments.
pub proof fn law_editor_tools()
    ensures
        ops::editor_tools().len() == 7,
        is_plain(
            ops::editor_tools()[0],
            "get_editor_info"@,
            "Get live state of the running Godot editor: version, project name, currently edited scene, open scenes, and whether a scene is playing."@,
        ),
        takes(
            ops::editor_tools()[1],
            "get_scene_tree"@,
            "Get the node tree (name, type, script, children) of the scene currently being edited in the Godot editor."@,
            ParamView {
                name: "max_depth"@,
                kind: ParamKind::Number,
                description: "Maximum tree depth to serialize (default 16)"@,
                required: false,
            },
        ),
        takes(
            ops::editor_tools()[2],
            "open_scene"@,
            "Open a scene file in the live Godot editor."@,
            ParamView {
                name: "path"@,
                kind: ParamKind::Text,
                description: "res:// path to a .tscn file"@,
                required: true,
            },
        ),
        is_plain(
            ops::editor_tools()[3],
            "save_all_scenes"@,
            "Save all open scenes in the Godot editor."@,
        ),
        takes(
            ops::editor_tools()[4],
            "play_scene"@,
            "Run the project from the editor (F5). Optionally play a specific scene instead of the main scene."@,
            ParamView {
                name: "scene_path"@,
                kind: ParamKind::Text,
                description: "Optional res:// path of the scene to play; defaults to the project main scene"@,
                required: false,
            },
        ),
        is_plain(
            ops::editor_tools()[5],
            "stop_playing"@,
            "Stop the scene currently being played from the editor."@,
        ),
        takes(
            ops::editor_tools()[6],
            "execute_editor_script"@,
            "Execute arbitrary GDScript inside the live Godot editor with full EditorInterface access. The code runs as the body of `func run():` in a @tool script; its return value is serialized back. Example: `return EditorInterface.get_edited_scene_root().name`"@,
            ParamView {
                name: "code"@,
                kind: ParamKind::Text,
                description: "GDScript statements to execute in the editor"@,
                required: true,
            },
        ),
{
}

/// The game serves five tools, under these names, with these descriptions and
/// arguments.
pub proof fn law_game_tools()
    ensures
        runtime::game_tools().len() == 5,
        is_plain(
            runtime::game_tools()[0],
            "get_game_info"@,
            "Get live state of the running game: FPS, current scene, window size."@,
        ),
        takes(
            runtime::game_tools()[1],
            "get_scene_tree"@,
            "Get the live runtime node tree of the running game (includes autoloads and dynamically created nodes)."@,
            ParamView {
                name: "max_depth"@,
                kind: ParamKind::Number,
                description: "Maximum tree depth to serialize (default 16)"@,
                required: false,
            },
        ),
        is_plain(
            runtime::game_tools()[2],
            "capture_screenshot"@,
            "Capture the game's rendered frame and return it as an image (downscaled to max 1280px wide)."@,
        ),
        takes(
            runtime::game_tools()[3],
            "simulate_input"@,
            "Inject a timed sequence of input events into the running game, as if a player performed them. Events: {type:'key', key:'Enter'|'A'|'Escape'|..., pressed?:bool} (omit pressed for tap), {type:'text', text:'hello'} (types characters), {type:'mouse_click', x, y, button?:'left'|'right'|'middle', double?:bool}, {type:'mouse_move', x, y}, {type:'action', action:'ui_accept', pressed?:bool} (omit pressed for tap, uses the project's input map), {type:'wait', ms:500}. Events are spaced across frames automatically; returns after the last event is dispatched."@,
            ParamView {
                name: "events"@,
                kind: ParamKind::Objects,
                description: "Sequence of input events to dispatch in order"@,
                required: true,
            },
        ),
        takes(
            runtime::game_tools()[4],
            "execute_script"@,
            "Execute arbitrary GDScript inside the running game process. The code runs as the body of `func run():`; use Engine.get_main_loop() to reach the SceneTree (e.g. `return Engine.get_main_loop().current_scene.name`). The return value is serialized back."@,
            ParamView {
                name: "code"@,
                kind: ParamKind::Text,
                description: "GDScript statements to execute in the game"@,
                required: true,
            },
        ),
{
}

/// The view of a tool tells everything of it.
pub proof fn law_tool_is_what_it_holds(tool: Tool, param: Param, i: int)
    ensures
        tool@.name == tool.name@,
        tool@.description == tool.description@,
        tool@.params.len() == tool.params@.len(),
        0 <= i < tool.params@.len() ==> tool@.params[i] == tool.params@[i]@,
        param@.name == param.name@,
        param@.kind == param.kind,
        param@.description == param.description@,
        param@.required == param.required,
{
}

} // verus!
