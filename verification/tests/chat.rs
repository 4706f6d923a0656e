use godot_agent::chat::{
    exit_event, find_claude, mcp_config, program_args, program_candidates, read_line, read_message,
    shell_path, user_line, ChatEvent, ChatProgram, BIN_VARIABLE,
};
use godot_agent::codec::parse_json;

fn program() -> ChatProgram {
    ChatProgram { name: "Helper".to_string(), command: "helper".to_string() }
}

fn show(event: &ChatEvent) -> String {
    match event {
        ChatEvent::AssistantText(text) => format!("text {}", text),
        ChatEvent::ToolUse(name) => format!("tool {}", name),
        ChatEvent::TurnDone { error: Some(error) } => format!("failed {}", error),
        ChatEvent::TurnDone { error: None } => "done".to_string(),
        ChatEvent::ProcessExit(text) => format!("exit {}", text),
    }
}

fn events(line: &str) -> Vec<String> {
    read_line(line).iter().map(show).collect()
}

#[test]
fn assistant_blocks_become_events() {
    let line = "{\"type\":\"assistant\",\"message\":{\"content\":[{\"type\":\"text\",\"text\":\"Hi \"},{\"type\":\"text\",\"text\":\" \\n\"},{\"type\":\"thinking\"},{\"type\":\"tool_use\",\"name\":\"mcp__godot-editor__open_scene\"},{\"type\":\"tool_use\"},{\"type\":\"tool_use\",\"name\":\"mcp__godot-game__x\"},{\"type\":\"text\"},5]}}";
    assert_eq!(
        events(line),
        vec!["text Hi ", "tool open_scene", "tool tool", "tool mcp__godot-game__x"]
    );
}

#[test]
fn tool_prefix_is_gone() {
    let line = "{\"type\":\"assistant\",\"message\":{\"content\":[{\"type\":\"tool_use\",\"name\":\"mcp__godot-editor__mcp__godot-editor__a\"}]}}";
    assert_eq!(events(line), vec!["tool a"]);
}

#[test]
fn turns_end() {
    assert_eq!(events("{\"type\":\"result\",\"subtype\":\"success\",\"result\":\"x\"}"), vec!["done"]);
    assert_eq!(events("{\"type\":\"result\"}"), vec!["done"]);
    assert_eq!(
        events("{\"type\":\"result\",\"subtype\":\"error_max_turns\"}"),
        vec!["failed error_max_turns"]
    );
    assert_eq!(
        events("{\"type\":\"result\",\"subtype\":\"error\",\"result\":\"why\"}"),
        vec!["failed why"]
    );
}

#[test]
fn other_lines_say_nothing() {
    for line in [
        "",
        " \t",
        "not json",
        "{\"type\":\"system\"}",
        "{}",
        "[]",
        "{\"type\":\"assistant\"}",
        "{\"type\":\"assistant\",\"message\":{}}",
        "{\"type\":\"assistant\",\"message\":{\"content\":\"x\"}}",
    ] {
        assert!(events(line).is_empty());
    }
    assert!(read_message(&parse_json("{\"type\":1}").unwrap()).is_empty());
}

fn session(lines: &[&str]) -> Vec<String> {
    let mut all: Vec<String> = Vec::new();
    for line in lines {
        all.extend(events(line));
    }
    all.push(show(&exit_event(&program())));
    all
}

#[test]
fn silent_lines_change_nothing() {
    let said = "{\"type\":\"assistant\",\"message\":{\"content\":[{\"type\":\"text\",\"text\":\"Hi\"}]}}";
    let done = "{\"type\":\"result\",\"subtype\":\"success\"}";
    let plain = session(&[said, done]);
    assert_eq!(plain.len(), 3);
    assert_eq!(plain[..2], ["text Hi", "done"]);
    assert!(plain[2].starts_with("exit "));
    assert_eq!(session(&["", said, "{\"type\":\"system\"}", " \u{3000}", done, "oops", "{}"]), plain);
}

#[test]
fn exit_is_announced() {
    assert_eq!(
        show(&exit_event(&program())),
        "exit Helper process exited. Press New to start a fresh session (check `helper` login if this repeats)."
    );
}

#[test]
fn user_messages_are_lines() {
    assert_eq!(
        user_line("a\n\"b\""),
        "{\"message\":{\"content\":[{\"text\":\"a\\n\\\"b\\\"\",\"type\":\"text\"}],\"role\":\"user\"},\"type\":\"user\"}\n"
    );
}

#[test]
fn a_message_is_one_line() {
    let line = user_line("first\nsecond\r\n\u{2028}third\n");
    assert_eq!(line.matches('\n').count(), 1);
    assert!(line.ends_with('\n'));
    let json = parse_json(&line).unwrap();
    let blocks = json.get("message").unwrap().get("content").unwrap();
    assert_eq!(
        blocks.as_array().unwrap()[0].text_field("text"),
        Some("first\nsecond\r\n\u{2028}third\n")
    );
}

#[test]
fn configuration_names_both_endpoints() {
    assert_eq!(
        mcp_config(6010, 6011),
        "{\"mcpServers\":{\"godot-editor\":{\"type\":\"http\",\"url\":\"http://127.0.0.1:6010/mcp\"},\"godot-game\":{\"type\":\"http\",\"url\":\"http://127.0.0.1:6011/mcp\"}}}"
    );
    assert!(parse_json(&mcp_config(0, 65535)).is_ok());
}

#[test]
fn arguments() {
    let args = program_args(1, 2);
    assert_eq!(args.len(), 13);
    assert_eq!(
        args[..11].join(" "),
        "--print --input-format stream-json --output-format stream-json --verbose --permission-mode acceptEdits --allowedTools mcp__godot-editor,mcp__godot-game --mcp-config"
    );
    assert_eq!(args[11], mcp_config(1, 2));
    assert_eq!(args[12], "--strict-mcp-config");
}

#[test]
fn variable_comes_first() {
    assert_eq!(BIN_VARIABLE.len(), 22);
    let found = find_claude(&program(), Some("/x"), Some("/y\n"), "/h", &vec![true, true, true]);
    assert_eq!(found, Ok("/x".to_string()));
    assert_eq!(find_claude(&program(), Some(""), None, "/h", &vec![]), Ok("".to_string()));
}

#[test]
fn shell_comes_second() {
    assert_eq!(shell_path(Some(" /y\n")), Some("/y".to_string()));
    assert_eq!(shell_path(Some(" \n")), None);
    assert_eq!(shell_path(None), None);
    let found = find_claude(&program(), None, Some("/y\n"), "/h", &vec![true, true, true]);
    assert_eq!(found, Ok("/y".to_string()));
}

#[test]
fn known_places_come_last() {
    assert_eq!(
        program_candidates("helper", "/h"),
        vec!["/opt/homebrew/bin/helper", "/usr/local/bin/helper", "/h/.local/bin/helper"]
    );
    let find = |there: Vec<bool>| find_claude(&program(), None, Some(""), "/h", &there);
    assert_eq!(find(vec![true, true, true]), Ok("/opt/homebrew/bin/helper".to_string()));
    assert_eq!(find(vec![false, true, true]), Ok("/usr/local/bin/helper".to_string()));
    assert_eq!(find(vec![false, false, true]), Ok("/h/.local/bin/helper".to_string()));
    let missing = format!(
        "Could not find the `helper` CLI. Install Helper Code or set {}.",
        BIN_VARIABLE
    );
    assert_eq!(find(vec![false, false, false]), Err(missing.clone()));
    assert_eq!(find(vec![]), Err(missing));
}
