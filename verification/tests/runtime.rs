use godot_agent::codec::{compact_text, parse_json};
use godot_agent::gd_util::SceneNode;
use godot_agent::json::Json;
use godot_agent::runtime::{
    execute_game_op, game_info_result, game_tool_definitions, game_tree_result, screenshot_result,
    screenshot_size, Advance, Capture, GameInfo, GameOp, GameTree, GodotAgentRuntime, JobStep,
};
use godot_agent::timeline::InputEvent;

fn json(text: &str) -> Json {
    parse_json(text).unwrap()
}

fn refusal(step: JobStep) -> String {
    match step {
        JobStep::Refuse(message) => message,
        _ => panic!("not refused"),
    }
}

#[test]
fn game_tools_are_known() {
    let tools = game_tool_definitions();
    let mut names: Vec<String> = Vec::new();
    for tool in tools.as_array().unwrap() {
        names.push(tool.text_field("name").unwrap().to_string());
    }
    assert_eq!(
        names,
        vec!["get_game_info", "get_scene_tree", "capture_screenshot", "simulate_input", "execute_script"]
    );
    for name in &names {
        if let JobStep::Refuse(message) = GodotAgentRuntime::new().take_job(name, &json("{}")) {
            assert!(!message.starts_with("Unknown tool"));
        }
    }
    assert_eq!(
        refusal(GodotAgentRuntime::new().take_job("fly", &json("{}"))),
        "Unknown tool: fly"
    );
    assert_eq!(
        compact_text(tools.as_array().unwrap()[3].get("inputSchema").unwrap()),
        "{\"properties\":{\"events\":{\"description\":\"Sequence of input events to dispatch in order\",\"items\":{\"type\":\"object\"},\"type\":\"array\"}},\"required\":[\"events\"],\"type\":\"object\"}"
    );
}

#[test]
fn game_operations() {
    assert!(matches!(execute_game_op("get_game_info", &json("{}")), Ok(GameOp::GetGameInfo)));
    assert!(matches!(
        execute_game_op("get_scene_tree", &json("{\"max_depth\":2}")),
        Ok(GameOp::GetSceneTree { max_depth: 2 })
    ));
    assert!(matches!(
        execute_game_op("get_scene_tree", &json("{}")),
        Ok(GameOp::GetSceneTree { max_depth: 16 })
    ));
    assert!(matches!(
        execute_game_op("get_scene_tree", &json("{\"max_depth\":2.0}")),
        Ok(GameOp::GetSceneTree { max_depth: 2 })
    ));
    assert!(matches!(
        execute_game_op("capture_screenshot", &json("{}")),
        Ok(GameOp::CaptureScreenshot)
    ));
    match execute_game_op("execute_script", &json("{\"code\":\"pass\"}")) {
        Ok(GameOp::ExecuteScript { source }) => {
            assert_eq!(source, "@tool\nextends RefCounted\nfunc run():\n\tpass\n")
        }
        _ => panic!("no script"),
    }
    assert_eq!(
        execute_game_op("execute_script", &json("{}")).unwrap_err(),
        "execute_script requires a `code` argument"
    );
    assert_eq!(
        execute_game_op("simulate_input", &json("{}")).unwrap_err(),
        "Unknown tool: simulate_input"
    );
}

#[test]
fn sequence_is_played_in_order() {
    let mut runtime = GodotAgentRuntime::new();
    assert!(runtime.next_delay().is_none());
    assert!(matches!(runtime.advance_input_sequence(true), Advance::Idle));
    let args = json("{\"events\":[{\"type\":\"text\",\"text\":\"ab\"}]}");
    assert!(matches!(runtime.take_job("simulate_input", &args), JobStep::Started));
    assert_eq!(runtime.next_delay().unwrap().gap_ms, 0);
    let mut seen: Vec<(char, bool)> = Vec::new();
    let mut reply = String::new();
    for due in [false, true, true, false, true, false, false, true] {
        match runtime.advance_input_sequence(due) {
            Advance::Waiting => assert!(!due),
            Advance::Dispatch(InputEvent::Char { ch, pressed }) => {
                seen.push((ch, pressed));
                assert_eq!(runtime.next_delay().unwrap().gap_ms, 20);
            }
            Advance::Finish(InputEvent::Char { ch, pressed }, text) => {
                seen.push((ch, pressed));
                reply = text;
            }
            _ => panic!("unexpected"),
        }
    }
    assert_eq!(seen, vec![('a', true), ('a', false), ('b', true), ('b', false)]);
    assert_eq!(reply, "Dispatched 4 input events");
    assert!(matches!(runtime.advance_input_sequence(true), Advance::Idle));
}

#[test]
fn one_event_per_look_at_the_clock() {
    let mut runtime = GodotAgentRuntime::new();
    let args = json("{\"events\":[{\"type\":\"text\",\"text\":\"abc\"}]}");
    assert!(matches!(runtime.take_job("simulate_input", &args), JobStep::Started));
    for frame in 0..6 {
        match runtime.advance_input_sequence(true) {
            Advance::Dispatch(_) => assert!(frame < 5),
            Advance::Finish(_, _) => assert_eq!(frame, 5),
            _ => panic!("unexpected"),
        }
    }
}

#[test]
fn one_sequence_at_a_time() {
    let mut runtime = GodotAgentRuntime::new();
    let args = json("{\"events\":[{\"type\":\"key\",\"key\":\"A\"}]}");
    assert!(matches!(runtime.take_job("simulate_input", &args), JobStep::Started));
    assert_eq!(
        refusal(runtime.take_job("simulate_input", &args)),
        "An input sequence is already in progress"
    );
    assert!(matches!(
        runtime.take_job("get_game_info", &args),
        JobStep::Execute(GameOp::GetGameInfo)
    ));
    assert!(matches!(runtime.advance_input_sequence(true), Advance::Dispatch(_)));
    assert!(matches!(runtime.advance_input_sequence(true), Advance::Finish(_, _)));
    assert!(matches!(runtime.take_job("simulate_input", &args), JobStep::Started));
}

#[test]
fn empty_and_bad_sequences_are_refused() {
    let mut runtime = GodotAgentRuntime::new();
    assert_eq!(
        refusal(runtime.take_job("simulate_input", &json("{\"events\":[]}"))),
        "events array is empty"
    );
    assert_eq!(
        refusal(runtime.take_job("simulate_input", &json("{\"events\":[{\"type\":\"wait\"}]}"))),
        "events array is empty"
    );
    assert_eq!(
        refusal(runtime.take_job("simulate_input", &json("{}"))),
        "simulate_input requires an `events` array"
    );
    assert_eq!(
        refusal(runtime.take_job("simulate_input", &json("{\"events\":[{\"type\":\"x\"}]}"))),
        "events[0]: unknown event type `x`"
    );
    assert!(runtime.next_delay().is_none());
}

#[test]
fn game_state() {
    let info = GameInfo {
        fps: serde_json::Number::from_f64(60.0),
        current_scene: Some(("Main".to_string(), "res://main.tscn".to_string())),
        window_size: Some((1152, 648)),
        paused: true,
    };
    assert_eq!(
        compact_text(&game_info_result(Some(&info)).unwrap()),
        "{\"current_scene\":{\"name\":\"Main\",\"path\":\"res://main.tscn\"},\"fps\":60.0,\"paused\":true,\"window_size\":[1152,648]}"
    );
    let nothing = GameInfo { fps: None, current_scene: None, window_size: None, paused: false };
    assert_eq!(
        compact_text(&game_info_result(Some(&nothing)).unwrap()),
        "{\"current_scene\":null,\"fps\":null,\"paused\":false,\"window_size\":null}"
    );
    assert_eq!(game_info_result(None).unwrap_err(), "Main loop is not a SceneTree");
}

#[test]
fn game_tree() {
    assert_eq!(
        game_tree_result(&GameTree::NoSceneTree, 1).unwrap_err(),
        "Main loop is not a SceneTree"
    );
    assert_eq!(game_tree_result(&GameTree::NoRootWindow, 1).unwrap_err(), "No root window");
    let root = SceneNode {
        name: "root".to_string(),
        class: "Window".to_string(),
        script: None,
        children: vec![],
    };
    assert_eq!(
        compact_text(&game_tree_result(&GameTree::Root(root), 1).unwrap()),
        "{\"name\":\"root\",\"type\":\"Window\"}"
    );
}

#[test]
fn wide_frames_are_scaled_down() {
    assert_eq!(screenshot_size(1280, 720), None);
    assert_eq!(screenshot_size(640, 480), None);
    assert_eq!(screenshot_size(1920, 1080), Some((1280, 720)));
    assert_eq!(screenshot_size(1281, 1), Some((1280, 0)));
    assert_eq!(screenshot_size(2560, 1441), Some((1280, 720)));
    assert_eq!(screenshot_size(2560, -3), Some((1280, -1)));
    assert_eq!(screenshot_size(1280, i32::MAX), None);
}

#[test]
fn screenshots() {
    let error = |capture: Capture| screenshot_result(&capture).unwrap_err();
    assert_eq!(error(Capture::NoSceneTree), "Main loop is not a SceneTree");
    assert_eq!(error(Capture::NoRootWindow), "No root window");
    assert_eq!(error(Capture::NoTexture), "Viewport has no texture");
    assert_eq!(error(Capture::NoImage), "Failed to read viewport image");
    assert_eq!(error(Capture::NotEncoded), "Failed to encode PNG");
    assert_eq!(
        compact_text(&screenshot_result(&Capture::Encoded("aGk=".to_string())).unwrap()),
        "{\"_image_base64\":\"aGk=\",\"_mime\":\"image/png\"}"
    );
}
