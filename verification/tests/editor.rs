use godot_agent::codec::compact_text;
use godot_agent::editor::{
    editor_info, execute_op, scene_tree_result, EditorCommand, EditorInfo, EditorStep,
};
use godot_agent::gd_util::SceneNode;
use godot_agent::ops::EditorOp;

fn command(op: &EditorOp) -> (EditorCommand, String) {
    match execute_op(op) {
        Ok(EditorStep::Command { command, reply }) => (command, reply),
        _ => panic!("no command"),
    }
}

#[test]
fn scenes_are_opened() {
    let (what, reply) = command(&EditorOp::OpenScene { path: "res://main.tscn".to_string() });
    assert!(matches!(what, EditorCommand::OpenScene(path) if path == "res://main.tscn"));
    assert_eq!(reply, "Opened res://main.tscn");
}

#[test]
fn other_files_are_not_opened() {
    for path in ["main.tscn", "res://main.gd", "user://a.tscn", "", "res:/x.tscn", "res://x.tscn "] {
        assert_eq!(
            execute_op(&EditorOp::OpenScene { path: path.to_string() }).unwrap_err(),
            format!("Expected a res:// path to a .tscn file, got: {}", path)
        );
    }
}

#[test]
fn commands_and_replies() {
    let (what, reply) = command(&EditorOp::SaveAllScenes);
    assert!(matches!(what, EditorCommand::SaveAllScenes));
    assert_eq!(reply, "All scenes saved");
    let (what, reply) = command(&EditorOp::StopPlaying);
    assert!(matches!(what, EditorCommand::StopPlaying));
    assert_eq!(reply, "Stopped playing");
    let (what, reply) = command(&EditorOp::PlayScene { scene_path: None });
    assert!(matches!(what, EditorCommand::PlayMainScene));
    assert_eq!(reply, "Playing main scene");
    let (what, reply) = command(&EditorOp::PlayScene { scene_path: Some("x".to_string()) });
    assert!(matches!(what, EditorCommand::PlayCustomScene(path) if path == "x"));
    assert_eq!(reply, "Playing x");
}

#[test]
fn steps_that_ask_back() {
    assert!(matches!(execute_op(&EditorOp::GetEditorInfo), Ok(EditorStep::ReadInfo)));
    assert!(matches!(
        execute_op(&EditorOp::GetSceneTree { max_depth: 5 }),
        Ok(EditorStep::ReadTree { max_depth: 5 })
    ));
    match execute_op(&EditorOp::ExecuteScript { code: "return 1".to_string() }) {
        Ok(EditorStep::RunScript { source }) => {
            assert_eq!(source, "@tool\nextends RefCounted\nfunc run():\n\treturn 1\n")
        }
        _ => panic!("no script"),
    }
}

#[test]
fn info_as_json() {
    let info = EditorInfo {
        version: Some("4.6.3".to_string()),
        project_name: "Demo".to_string(),
        edited_scene: None,
        open_scenes: vec!["res://a.tscn".to_string()],
        is_playing: false,
    };
    assert_eq!(
        compact_text(&editor_info(&info)),
        "{\"edited_scene\":\"\",\"godot_version\":\"4.6.3\",\"is_playing\":false,\"open_scenes\":[\"res://a.tscn\"],\"project_name\":\"Demo\"}"
    );
}

#[test]
fn edited_tree() {
    assert_eq!(
        scene_tree_result(None, 16).unwrap_err(),
        "No scene is currently being edited in the editor"
    );
    let root = SceneNode {
        name: "R".to_string(),
        class: "Node2D".to_string(),
        script: None,
        children: vec![],
    };
    assert_eq!(
        compact_text(&scene_tree_result(Some(&root), 16).unwrap()),
        "{\"name\":\"R\",\"type\":\"Node2D\"}"
    );
}
