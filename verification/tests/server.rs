use godot_agent::codec::parse_json;
use godot_agent::gd_util::{script_result, GodotKind, GodotValue, ScriptOutcome};
use godot_agent::json::Json;
use godot_agent::ops::EditorOp;
use godot_agent::runtime::{screenshot_result, Capture};
use godot_agent::server::{
    asks_screenshot, begin_call, call_outcome, empty_response, json_response, method_reply, queued_reply, server_for,
    stringify_result, Answer, Endpoint, HttpMethod, HttpReply, McpServer, Next, ToolJob, Wait,
    DEFAULT_GAME_PORT, DEFAULT_PORT, TOOL_TIMEOUT_SECS,
};

fn editor() -> McpServer {
    server_for(Endpoint::Editor, "1.2.3")
}

fn reply(server: &McpServer, body: &str) -> (u16, String) {
    match server.receive(Some(body)) {
        Next::Reply(reply) => text(reply),
        Next::Queue { .. } => panic!("queued"),
    }
}

fn text(reply: HttpReply) -> (u16, String) {
    let expected = if reply.body.is_empty() { None } else { Some("application/json".to_string()) };
    assert_eq!(reply.content_type, expected);
    (reply.status, String::from_utf8(reply.body).unwrap())
}

#[test]
fn constants() {
    assert_eq!(DEFAULT_PORT, 6010);
    assert_eq!(DEFAULT_GAME_PORT, 6011);
    assert_eq!(TOOL_TIMEOUT_SECS, 30);
}

#[test]
fn only_post_is_read() {
    assert!(method_reply(HttpMethod::Post).is_none());
    assert_eq!(method_reply(HttpMethod::Delete).unwrap().status, 200);
    assert_eq!(method_reply(HttpMethod::Other).unwrap().status, 405);
    assert!(method_reply(HttpMethod::Other).unwrap().body.is_empty());
}

#[test]
fn unreadable_body_is_a_bad_request() {
    match editor().receive(None) {
        Next::Reply(reply) => assert_eq!(text(reply), (400, String::new())),
        Next::Queue { .. } => panic!("queued"),
    }
}

#[test]
fn parse_error_is_reported() {
    assert_eq!(
        reply(&editor(), "{"),
        (
            400,
            "{\"error\":{\"code\":-32700,\"message\":\"Parse error: EOF while parsing an object at line 1 column 1\"},\"id\":null,\"jsonrpc\":\"2.0\"}".to_string()
        )
    );
}

#[test]
fn notifications_are_accepted() {
    for body in [
        "{\"method\":\"notifications/initialized\"}",
        "{\"id\":null,\"method\":\"tools/call\",\"params\":{\"name\":\"save_all_scenes\"}}",
        "[1]",
        "7",
        "{}",
    ] {
        assert_eq!(reply(&editor(), body), (202, String::new()));
    }
}

#[test]
fn initialize_names_the_server() {
    assert_eq!(
        reply(&editor(), "{\"id\":1,\"method\":\"initialize\",\"params\":{\"protocolVersion\":\"2025-03-26\"}}"),
        (
            200,
            "{\"id\":1,\"jsonrpc\":\"2.0\",\"result\":{\"capabilities\":{\"tools\":{}},\"protocolVersion\":\"2025-03-26\",\"serverInfo\":{\"name\":\"godot-agent\",\"version\":\"1.2.3\"}}}".to_string()
        )
    );
    assert_eq!(
        reply(&server_for(Endpoint::Game, "9"), "{\"id\":\"x\",\"method\":\"initialize\"}"),
        (
            200,
            "{\"id\":\"x\",\"jsonrpc\":\"2.0\",\"result\":{\"capabilities\":{\"tools\":{}},\"protocolVersion\":\"2024-11-05\",\"serverInfo\":{\"name\":\"godot-agent-game\",\"version\":\"9\"}}}".to_string()
        )
    );
}

#[test]
fn ping_echoes_any_id() {
    for id in ["0", "1.5", "\"a\"", "[1,{\"b\":2}]", "false"] {
        let body = format!("{{\"jsonrpc\":\"2.0\",\"id\":{},\"method\":\"ping\"}}", id);
        let expected = format!("{{\"id\":{},\"jsonrpc\":\"2.0\",\"result\":{{}}}}", id);
        assert_eq!(reply(&editor(), &body), (200, expected));
    }
}

#[test]
fn tools_are_listed() {
    for (endpoint, count) in [(Endpoint::Editor, 7), (Endpoint::Game, 5)] {
        let (status, body) = reply(&server_for(endpoint, "0"), "{\"id\":3,\"method\":\"tools/list\"}");
        assert_eq!(status, 200);
        let json = parse_json(&body).unwrap();
        let tools = json.get("result").unwrap().get("tools").unwrap();
        assert_eq!(tools.as_array().unwrap().len(), count);
    }
}

#[test]
fn unknown_method_is_an_error() {
    assert_eq!(
        reply(&editor(), "{\"id\":2,\"method\":\"resources/list\"}"),
        (
            200,
            "{\"error\":{\"code\":-32601,\"message\":\"Method not found: resources/list\"},\"id\":2,\"jsonrpc\":\"2.0\"}".to_string()
        )
    );
    let (_, body) = reply(&editor(), "{\"id\":2,\"method\":5}");
    assert!(body.contains("\"Method not found: \""));
}

#[test]
fn editor_call_is_queued() {
    let body = "{\"id\":4,\"method\":\"tools/call\",\"params\":{\"name\":\"open_scene\",\"arguments\":{\"path\":\"p\"}}}";
    match editor().receive(Some(body)) {
        Next::Queue { id, screenshot: false, job: ToolJob::Editor(EditorOp::OpenScene { path }) } => {
            assert_eq!(id.as_i64(), Some(4));
            assert_eq!(path, "p");
        }
        _ => panic!("not queued"),
    }
}

#[test]
fn game_call_is_queued_as_it_is() {
    let body = "{\"id\":4,\"method\":\"tools/call\",\"params\":{\"name\":\"nothing\"}}";
    match server_for(Endpoint::Game, "0").receive(Some(body)) {
        Next::Queue { job: ToolJob::Game { name, args }, .. } => {
            assert_eq!(name, "nothing");
            assert!(matches!(args, Json::Object(_)));
        }
        _ => panic!("not queued"),
    }
}

#[test]
fn refused_call_is_a_marked_result() {
    assert_eq!(
        reply(&editor(), "{\"id\":4,\"method\":\"tools/call\",\"params\":{}}"),
        (
            200,
            "{\"id\":4,\"jsonrpc\":\"2.0\",\"result\":{\"content\":[{\"text\":\"Unknown tool: \",\"type\":\"text\"}],\"isError\":true}}".to_string()
        )
    );
}

#[test]
fn answer_tells_a_call_apart() {
    let message = parse_json("{\"id\":1,\"method\":\"tools/call\",\"params\":{\"name\":\"n\",\"arguments\":7}}").unwrap();
    match editor().answer(&message) {
        Answer::Call { id, name, args } => {
            assert_eq!(id.as_i64(), Some(1));
            assert_eq!(name, "n");
            assert_eq!(args.as_i64(), Some(7));
        }
        _ => panic!("no call"),
    }
    assert!(matches!(editor().answer(&Json::Null), Answer::Accepted));
}

#[test]
fn outcome_is_put_into_the_reply() {
    assert_eq!(
        text(queued_reply(Json::Integer(5), false, Wait::Answered(Ok(Json::text("All scenes saved"))))),
        (
            200,
            "{\"id\":5,\"jsonrpc\":\"2.0\",\"result\":{\"content\":[{\"text\":\"All scenes saved\",\"type\":\"text\"}]}}".to_string()
        )
    );
    assert_eq!(
        text(queued_reply(Json::Integer(5), false, Wait::Answered(Ok(parse_json("[1]").unwrap())))),
        (
            200,
            "{\"id\":5,\"jsonrpc\":\"2.0\",\"result\":{\"content\":[{\"text\":\"[\\n  1\\n]\",\"type\":\"text\"}]}}".to_string()
        )
    );
    assert_eq!(
        text(queued_reply(Json::Integer(5), false, Wait::Answered(Err("boom".to_string())))),
        (
            200,
            "{\"id\":5,\"jsonrpc\":\"2.0\",\"result\":{\"content\":[{\"text\":\"boom\",\"type\":\"text\"}],\"isError\":true}}".to_string()
        )
    );
}

#[test]
fn screenshot_becomes_an_image() {
    let shot = screenshot_result(&Capture::Encoded("aGk=".to_string()));
    assert_eq!(
        text(queued_reply(Json::Integer(5), true, Wait::Answered(shot))),
        (
            200,
            "{\"id\":5,\"jsonrpc\":\"2.0\",\"result\":{\"content\":[{\"data\":\"aGk=\",\"mimeType\":\"image/png\",\"type\":\"image\"}]}}".to_string()
        )
    );
    let failed = screenshot_result(&Capture::NotEncoded);
    let (_, body) = text(queued_reply(Json::Integer(5), true, Wait::Answered(failed)));
    assert!(body.contains("\"isError\":true"));
    assert!(body.contains("\"text\":\"Failed to encode PNG\""));
}

#[test]
fn only_the_game_takes_screenshots() {
    let flag = |endpoint: Endpoint, name: &str| {
        let body = format!(
            "{{\"id\":1,\"method\":\"tools/call\",\"params\":{{\"name\":\"{}\",\"arguments\":{{\"code\":\"x\"}}}}}}",
            name
        );
        match server_for(endpoint, "0").receive(Some(&body)) {
            Next::Queue { screenshot, job, .. } => {
                assert_eq!(screenshot, asks_screenshot(&job));
                Some(screenshot)
            }
            Next::Reply(_) => None,
        }
    };
    assert_eq!(flag(Endpoint::Game, "capture_screenshot"), Some(true));
    assert_eq!(flag(Endpoint::Game, "execute_script"), Some(false));
    assert_eq!(flag(Endpoint::Editor, "execute_editor_script"), Some(false));
    assert_eq!(flag(Endpoint::Editor, "capture_screenshot"), None);
}

#[test]
fn a_script_result_stays_text() {
    let value = |text: &str| GodotValue { text: text.to_string(), kind: GodotKind::Text };
    let dictionary = GodotValue {
        text: String::new(),
        kind: GodotKind::Dictionary(vec![
            ("_image_base64".to_string(), value("aGk=")),
            ("_mime".to_string(), value("text/plain")),
        ]),
    };
    let returned = script_result(&ScriptOutcome::Returned(dictionary));
    assert_eq!(
        text(queued_reply(Json::Integer(5), false, Wait::Answered(returned))),
        (
            200,
            "{\"id\":5,\"jsonrpc\":\"2.0\",\"result\":{\"content\":[{\"text\":\"{\\n  \\\"_image_base64\\\": \\\"aGk=\\\",\\n  \\\"_mime\\\": \\\"text/plain\\\"\\n}\",\"type\":\"text\"}]}}".to_string()
        )
    );
}

#[test]
fn lost_jobs_are_reported() {
    assert_eq!(call_outcome(Wait::Closed).unwrap_err(), "Editor plugin is shutting down");
    assert_eq!(
        call_outcome(Wait::TimedOut).unwrap_err(),
        "Timed out waiting for the editor main thread. The editor may be busy (e.g. a modal dialog is open) or the scene is playing with the editor paused."
    );
}

#[test]
fn results_become_text() {
    assert_eq!(stringify_result(&Json::text("a\nb")), "a\nb");
    assert_eq!(stringify_result(&Json::Null), "null");
    assert_eq!(stringify_result(&parse_json("{\"a\":1}").unwrap()), "{\n  \"a\": 1\n}");
}

#[test]
fn jobs_follow_the_endpoint() {
    let args = || parse_json("{}").unwrap();
    assert!(begin_call(Endpoint::Editor, "nope".to_string(), args()).is_err());
    assert!(begin_call(Endpoint::Game, "nope".to_string(), args()).is_ok());
    assert!(matches!(
        begin_call(Endpoint::Editor, "stop_playing".to_string(), args()),
        Ok(ToolJob::Editor(EditorOp::StopPlaying))
    ));
}

#[test]
fn replies_are_built() {
    assert_eq!(text(empty_response(418)), (418, String::new()));
    assert_eq!(text(json_response(201, &Json::Bool(true))), (201, "true".to_string()));
}
