use godot_agent::codec::{compact_text, parse_json};
use godot_agent::json::Json;
use godot_agent::ops::{parse_tool_call, read_depth_text, tool_definitions, EditorOp};

fn call(name: &str, args: &str) -> Result<EditorOp, String> {
    parse_tool_call(name, &parse_json(args).unwrap())
}

#[test]
fn plain_operations() {
    assert!(matches!(call("get_editor_info", "{}"), Ok(EditorOp::GetEditorInfo)));
    assert!(matches!(call("save_all_scenes", "null"), Ok(EditorOp::SaveAllScenes)));
    assert!(matches!(call("stop_playing", "[1]"), Ok(EditorOp::StopPlaying)));
}

#[test]
fn scene_tree_depth() {
    let depth = |args: &str| match call("get_scene_tree", args) {
        Ok(EditorOp::GetSceneTree { max_depth }) => max_depth,
        _ => panic!("not a tree"),
    };
    assert_eq!(depth("{}"), 16);
    assert_eq!(depth("{\"max_depth\":3}"), 3);
    assert_eq!(depth("{\"max_depth\":-1}"), -1);
    assert_eq!(depth("{\"max_depth\":3.0}"), 3);
    assert_eq!(depth("{\"max_depth\":2.0}"), 2);
    assert_eq!(depth("{\"max_depth\":-0.0}"), 0);
    assert_eq!(depth("{\"max_depth\":-4.0}"), -4);
    assert_eq!(depth("{\"max_depth\":1e2}"), 100);
    assert_eq!(depth("{\"max_depth\":1e16}"), 10000000000000000);
    assert_eq!(depth("{\"max_depth\":1.5e17}"), 150000000000000000);
    assert_eq!(depth("{\"max_depth\":1e300}"), i64::MAX);
    assert_eq!(depth("{\"max_depth\":-1e300}"), i64::MIN);
    assert_eq!(depth("{\"max_depth\":9223372036854775807}"), i64::MAX);
    assert_eq!(depth("{\"max_depth\":9223372036854775808}"), i64::MAX);
    assert_eq!(depth("{\"max_depth\":2.5}"), 16);
    assert_eq!(depth("{\"max_depth\":1e-9}"), 16);
    assert_eq!(depth("{\"max_depth\":null}"), 16);
    assert_eq!(depth("{\"max_depth\":\"3\"}"), 16);
}

#[test]
fn depth_is_read_from_text() {
    assert_eq!(read_depth_text("2.0"), 2);
    assert_eq!(read_depth_text("+2.000"), 2);
    assert_eq!(read_depth_text("-12"), -12);
    assert_eq!(read_depth_text("0.0"), 0);
    assert_eq!(read_depth_text("120e-1"), 12);
    assert_eq!(read_depth_text("0e-9"), 0);
    assert_eq!(read_depth_text("1.25e+02"), 125);
    assert_eq!(read_depth_text("9223372036854775808"), i64::MAX);
    assert_eq!(read_depth_text("-9223372036854775808"), i64::MIN);
    for text in [
        "", "-", ".", "2.", ".0", "e5", "2e", "2e+", "2e0000", "2.05", "1.25e1", "--2", "2.0.0", "2 ", "٣",
    ] {
        assert_eq!(read_depth_text(text), 16);
    }
}

#[test]
fn open_scene_needs_a_path() {
    match call("open_scene", "{\"path\":\"res://a.tscn\"}") {
        Ok(EditorOp::OpenScene { path }) => assert_eq!(path, "res://a.tscn"),
        _ => panic!("not opened"),
    }
    assert_eq!(
        call("open_scene", "{\"path\":1}").unwrap_err(),
        "open_scene requires a `path` argument"
    );
}

#[test]
fn play_scene_may_name_a_scene() {
    assert!(matches!(call("play_scene", "{}"), Ok(EditorOp::PlayScene { scene_path: None })));
    match call("play_scene", "{\"scene_path\":\"x\"}") {
        Ok(EditorOp::PlayScene { scene_path: Some(path) }) => assert_eq!(path, "x"),
        _ => panic!("no path"),
    }
}

#[test]
fn script_needs_code() {
    match call("execute_editor_script", "{\"code\":\"return 1\"}") {
        Ok(op) => match op.clone() {
            EditorOp::ExecuteScript { code } => assert_eq!(code, "return 1"),
            _ => panic!("no script"),
        },
        Err(_) => panic!("refused"),
    }
    assert_eq!(
        call("execute_editor_script", "{}").unwrap_err(),
        "execute_editor_script requires a `code` argument"
    );
}

#[test]
fn unknown_tool_is_refused() {
    assert_eq!(call("open_scenes", "{}").unwrap_err(), "Unknown tool: open_scenes");
    assert_eq!(call("", "{}").unwrap_err(), "Unknown tool: ");
}

fn names(tools: &Json) -> Vec<String> {
    tools
        .as_array()
        .unwrap()
        .iter()
        .map(|tool| tool.text_field("name").unwrap().to_string())
        .collect()
}

#[test]
fn listed_tools_are_known() {
    let tools = tool_definitions();
    assert_eq!(
        names(&tools),
        vec![
            "get_editor_info",
            "get_scene_tree",
            "open_scene",
            "save_all_scenes",
            "play_scene",
            "stop_playing",
            "execute_editor_script"
        ]
    );
    let args = parse_json("{\"path\":\"p\",\"code\":\"c\"}").unwrap();
    for name in names(&tools) {
        assert!(parse_tool_call(&name, &args).is_ok());
    }
}

#[test]
fn required_arguments_are_those_asked_for() {
    for tool in tool_definitions().as_array().unwrap() {
        let name = tool.text_field("name").unwrap();
        let required = tool.get("inputSchema").unwrap().get("required").is_some();
        assert_eq!(parse_tool_call(name, &parse_json("{}").unwrap()).is_err(), required);
    }
}

#[test]
fn definitions_as_json() {
    let tools = tool_definitions();
    let items = tools.as_array().unwrap();
    assert_eq!(
        compact_text(&items[0]),
        "{\"description\":\"Get live state of the running Godot editor: version, project name, currently edited scene, open scenes, and whether a scene is playing.\",\"inputSchema\":{\"properties\":{},\"type\":\"object\"},\"name\":\"get_editor_info\"}"
    );
    assert_eq!(
        compact_text(items[1].get("inputSchema").unwrap()),
        "{\"properties\":{\"max_depth\":{\"description\":\"Maximum tree depth to serialize (default 16)\",\"type\":\"number\"}},\"type\":\"object\"}"
    );
    assert_eq!(
        compact_text(&items[2]),
        "{\"description\":\"Open a scene file in the live Godot editor.\",\"inputSchema\":{\"properties\":{\"path\":{\"description\":\"res:// path to a .tscn file\",\"type\":\"string\"}},\"required\":[\"path\"],\"type\":\"object\"},\"name\":\"open_scene\"}"
    );
    assert_eq!(
        compact_text(items[4].get("inputSchema").unwrap()),
        "{\"properties\":{\"scene_path\":{\"description\":\"Optional res:// path of the scene to play; defaults to the project main scene\",\"type\":\"string\"}},\"type\":\"object\"}"
    );
    assert_eq!(
        compact_text(items[6].get("inputSchema").unwrap()),
        "{\"properties\":{\"code\":{\"description\":\"GDScript statements to execute in the editor\",\"type\":\"string\"}},\"required\":[\"code\"],\"type\":\"object\"}"
    );
}
